//! The schema compatibility diff engine.
//!
//! `diff_schema` correlates the two documents' directive definitions, their
//! schema-root definitions, and their type definitions; each matched pair is
//! decomposed by a kind-specific comparator which correlates its own nested
//! lists in turn. Every function's contract states, over the abstract
//! correlation engine, exactly which report entries it emits and in which
//! order.

use vstd::prelude::*;

use crate::correlate::{
    correlate_add_upto, correlate_removed_upto, correlate_reports, find_by_name,
    lemma_find_named_properties,
};
use crate::diff_location::{
    segment_view, view_opt_string, DiffLocation, DiffLocationSegmentType, DiffLocationSegmentView,
};
use crate::document::{
    ConstDirective, DirectiveArgument, DirectiveDefinition, EnumType, EnumValueDefinition,
    FieldDefinition, InputObjectType, InputValueDefinition, InterfaceType, ObjectType,
    SchemaDefinition, ServiceDocument, TypeDefinition, TypeKind, UnionType,
};
use crate::named::Named;
use crate::report::{
    entries, lemma_entries_add, lemma_entries_push, ChangeType, ReportEntry, ReportEntryView,
    ReportKind, ReportKindView,
};
use crate::type_compare::{compare_types, type_reports};
use crate::value_compare::{
    bool_reports, compare_bools, compare_optional_strings, compare_string_values,
    optional_string_reports, value_reports,
};

verus! {

/// A classifier that gives every added item the same classification.
pub open spec fn const_classifier<T>(change_type: ChangeType) -> spec_fn(T) -> ChangeType {
    |t: T| change_type
}

// ---------------------------------------------------------------------------
// Directive arguments
// ---------------------------------------------------------------------------

/// Reports for a matched pair of directive arguments: their values compared,
/// with unknown impact.
pub open spec fn directive_argument_reports(
    loc: Seq<DiffLocationSegmentView>,
    l: DirectiveArgument,
    r: DirectiveArgument,
) -> Seq<ReportEntryView> {
    value_reports(
        loc.push(segment_view(DiffLocationSegmentType::DirectiveArgument, None)),
        l.value@,
        r.value@,
        ChangeType::Unknown,
    )
}

/// The matched-pair comparator the argument correlation uses.
pub open spec fn directive_argument_compare_fn(outer: Seq<DiffLocationSegmentView>) -> spec_fn(
    DirectiveArgument,
    DirectiveArgument,
) -> Seq<ReportEntryView> {
    |l: DirectiveArgument, r: DirectiveArgument|
        directive_argument_reports(
            outer.push(
                segment_view(DiffLocationSegmentType::DirectiveArgument, Some(r.spec_name())),
            ),
            l,
            r,
        )
}

/// Reports for two directive-argument lists, correlated by argument name.
pub open spec fn directive_argument_list_reports(
    outer: Seq<DiffLocationSegmentView>,
    left: Seq<DirectiveArgument>,
    right: Seq<DirectiveArgument>,
) -> Seq<ReportEntryView> {
    correlate_reports(
        left,
        right,
        outer.push(segment_view(DiffLocationSegmentType::DirectiveArgument, None)),
        const_classifier(ChangeType::Unknown),
        directive_argument_compare_fn(outer),
    )
}

/// Compares the values of a matched pair of directive arguments.
pub fn compare_const_directive_argument_value(
    loc: &DiffLocation,
    l: &DirectiveArgument,
    r: &DirectiveArgument,
) -> (out: Vec<ReportEntry>)
    ensures
        entries(out@) == directive_argument_reports(loc@, *l, *r),
{
    let value_loc = loc.push(DiffLocationSegmentType::DirectiveArgument, None);
    compare_string_values(&value_loc, &l.value, &r.value, ChangeType::Unknown)
}

/// Correlates two directive-argument lists by argument name.
pub fn correlate_directive_arguments(
    outer: &DiffLocation,
    left: &Vec<DirectiveArgument>,
    right: &Vec<DirectiveArgument>,
) -> (out: Vec<ReportEntry>)
    ensures
        entries(out@) == directive_argument_list_reports(outer@, left@, right@),
{
    let loc = outer.push(DiffLocationSegmentType::DirectiveArgument, None);
    let mut out: Vec<ReportEntry> = Vec::new();
    let mut i: usize = 0;
    while i < right.len()
        invariant
            i <= right@.len(),
            loc@ == outer@.push(segment_view(DiffLocationSegmentType::DirectiveArgument, None)),
            entries(out@) == correlate_add_upto(
                left@,
                right@,
                loc@,
                const_classifier(ChangeType::Unknown),
                directive_argument_compare_fn(outer@),
                i as int,
            ),
        decreases right@.len() - i,
    {
        let r = &right[i];
        let ghost out_before = out@;
        match find_by_name(left, &r.name) {
            Some(j) => {
                proof {
                    lemma_find_named_properties(left@, r.name@);
                }
                let named_loc = outer.push(
                    DiffLocationSegmentType::DirectiveArgument,
                    Some(r.name.clone()),
                );
                let mut sub = compare_const_directive_argument_value(&named_loc, &left[j], r);
                let ghost sub_view = sub@;
                out.append(&mut sub);
                proof {
                    lemma_entries_add(out_before, sub_view);
                }
            }
            None => {
                out.push(
                    ReportEntry {
                        location: loc.duplicate(),
                        kind: ReportKind::ItemAdded { name: r.name.clone() },
                        change_type: ChangeType::Unknown,
                    },
                );
                proof {
                    lemma_entries_push(out_before, out@[out@.len() - 1]);
                }
            }
        }
        i = i + 1;
    }
    let mut i: usize = 0;
    while i < left.len()
        invariant
            i <= left@.len(),
            loc@ == outer@.push(segment_view(DiffLocationSegmentType::DirectiveArgument, None)),
            entries(out@) == correlate_add_upto(
                left@,
                right@,
                loc@,
                const_classifier(ChangeType::Unknown),
                directive_argument_compare_fn(outer@),
                right@.len() as int,
            ) + correlate_removed_upto(left@, right@, loc@, i as int),
        decreases left@.len() - i,
    {
        let l = &left[i];
        let ghost out_before = out@;
        match find_by_name(right, &l.name) {
            Some(j) => {
                proof {
                    assert(entries(out@) =~= entries(out_before) + Seq::<
                        ReportEntryView,
                    >::empty());
                }
            }
            None => {
                out.push(
                    ReportEntry {
                        location: loc.duplicate(),
                        kind: ReportKind::ItemRemoved { name: l.name.clone() },
                        change_type: ChangeType::Breaking,
                    },
                );
                proof {
                    lemma_entries_push(out_before, out@[out@.len() - 1]);
                }
            }
        }
        i = i + 1;
    }
    out
}

// ---------------------------------------------------------------------------
// Directive applications
// ---------------------------------------------------------------------------

/// Reports for a matched pair of directive applications: their argument
/// lists correlated by argument name.
pub open spec fn const_directive_reports(
    loc: Seq<DiffLocationSegmentView>,
    l: ConstDirective,
    r: ConstDirective,
) -> Seq<ReportEntryView> {
    directive_argument_list_reports(loc, l.arguments@, r.arguments@)
}

/// The matched-pair comparator the directive-application correlation uses.
pub open spec fn const_directive_compare_fn(outer: Seq<DiffLocationSegmentView>) -> spec_fn(
    ConstDirective,
    ConstDirective,
) -> Seq<ReportEntryView> {
    |l: ConstDirective, r: ConstDirective|
        const_directive_reports(
            outer.push(segment_view(DiffLocationSegmentType::Directive, Some(r.spec_name()))),
            l,
            r,
        )
}

/// Reports for two directive-application lists, correlated by directive
/// name; an application present on one side only has unknown impact.
pub open spec fn directive_list_reports(
    outer: Seq<DiffLocationSegmentView>,
    left: Seq<ConstDirective>,
    right: Seq<ConstDirective>,
) -> Seq<ReportEntryView> {
    correlate_reports(
        left,
        right,
        outer.push(segment_view(DiffLocationSegmentType::Directive, None)),
        const_classifier(ChangeType::Unknown),
        const_directive_compare_fn(outer),
    )
}

/// Compares a matched pair of directive applications.
pub fn compare_const_directives(loc: &DiffLocation, l: &ConstDirective, r: &ConstDirective) -> (out:
    Vec<ReportEntry>)
    requires
        l.spec_name() == r.spec_name(),
    ensures
        entries(out@) == const_directive_reports(loc@, *l, *r),
{
    correlate_directive_arguments(loc, &l.arguments, &r.arguments)
}

/// Correlates two directive-application lists by directive name.
pub fn correlate_directives(
    outer: &DiffLocation,
    left: &Vec<ConstDirective>,
    right: &Vec<ConstDirective>,
) -> (out: Vec<ReportEntry>)
    ensures
        entries(out@) == directive_list_reports(outer@, left@, right@),
{
    let loc = outer.push(DiffLocationSegmentType::Directive, None);
    let mut out: Vec<ReportEntry> = Vec::new();
    let mut i: usize = 0;
    while i < right.len()
        invariant
            i <= right@.len(),
            loc@ == outer@.push(segment_view(DiffLocationSegmentType::Directive, None)),
            entries(out@) == correlate_add_upto(
                left@,
                right@,
                loc@,
                const_classifier(ChangeType::Unknown),
                const_directive_compare_fn(outer@),
                i as int,
            ),
        decreases right@.len() - i,
    {
        let r = &right[i];
        let ghost out_before = out@;
        match find_by_name(left, &r.name) {
            Some(j) => {
                proof {
                    lemma_find_named_properties(left@, r.name@);
                }
                let named_loc = outer.push(
                    DiffLocationSegmentType::Directive,
                    Some(r.name.clone()),
                );
                let mut sub = compare_const_directives(&named_loc, &left[j], r);
                let ghost sub_view = sub@;
                out.append(&mut sub);
                proof {
                    lemma_entries_add(out_before, sub_view);
                }
            }
            None => {
                out.push(
                    ReportEntry {
                        location: loc.duplicate(),
                        kind: ReportKind::ItemAdded { name: r.name.clone() },
                        change_type: ChangeType::Unknown,
                    },
                );
                proof {
                    lemma_entries_push(out_before, out@[out@.len() - 1]);
                }
            }
        }
        i = i + 1;
    }
    let mut i: usize = 0;
    while i < left.len()
        invariant
            i <= left@.len(),
            loc@ == outer@.push(segment_view(DiffLocationSegmentType::Directive, None)),
            entries(out@) == correlate_add_upto(
                left@,
                right@,
                loc@,
                const_classifier(ChangeType::Unknown),
                const_directive_compare_fn(outer@),
                right@.len() as int,
            ) + correlate_removed_upto(left@, right@, loc@, i as int),
        decreases left@.len() - i,
    {
        let l = &left[i];
        let ghost out_before = out@;
        match find_by_name(right, &l.name) {
            Some(j) => {
                proof {
                    assert(entries(out@) =~= entries(out_before) + Seq::<
                        ReportEntryView,
                    >::empty());
                }
            }
            None => {
                out.push(
                    ReportEntry {
                        location: loc.duplicate(),
                        kind: ReportKind::ItemRemoved { name: l.name.clone() },
                        change_type: ChangeType::Breaking,
                    },
                );
                proof {
                    lemma_entries_push(out_before, out@[out@.len() - 1]);
                }
            }
        }
        i = i + 1;
    }
    out
}

// ---------------------------------------------------------------------------
// Descriptions
// ---------------------------------------------------------------------------

/// Reports for a pair of optional descriptions; description changes are
/// always non-breaking and the text is not echoed.
pub open spec fn description_reports(
    outer: Seq<DiffLocationSegmentView>,
    left: Option<Seq<char>>,
    right: Option<Seq<char>>,
) -> Seq<ReportEntryView> {
    optional_string_reports(
        outer.push(segment_view(DiffLocationSegmentType::Description, None)),
        ChangeType::NonBreaking,
        ChangeType::NonBreaking,
        ChangeType::NonBreaking,
        false,
        left,
        right,
    )
}

// ---------------------------------------------------------------------------
// Input values (field arguments and input-object fields)
// ---------------------------------------------------------------------------

/// How an input value added on the right is classified: harmless when it has
/// a default value or is nullable, breaking otherwise (a new required input
/// cannot be satisfied by existing callers).
pub open spec fn added_input_value_change(iv: InputValueDefinition) -> ChangeType {
    if iv.default_value is Some || iv.ty.nullable {
        ChangeType::NonBreaking
    } else {
        ChangeType::Breaking
    }
}

/// The classifier the input-value correlation uses.
pub open spec fn input_value_classifier() -> spec_fn(InputValueDefinition) -> ChangeType {
    |iv: InputValueDefinition| added_input_value_change(iv)
}

/// Classifies an input value added on the right.
pub fn classify_added_input_value(iv: &InputValueDefinition) -> (r: ChangeType)
    ensures
        r == added_input_value_change(*iv),
{
    if iv.default_value.is_some() || iv.ty.nullable {
        ChangeType::NonBreaking
    } else {
        ChangeType::Breaking
    }
}

/// Reports for a matched pair of input values: type reference, default
/// value, description, then applied directives.
pub open spec fn input_value_reports(
    loc: Seq<DiffLocationSegmentView>,
    l: InputValueDefinition,
    r: InputValueDefinition,
) -> Seq<ReportEntryView> {
    type_reports(loc.push(segment_view(DiffLocationSegmentType::Type, None)), l.ty, r.ty)
        + optional_string_reports(
        loc.push(segment_view(DiffLocationSegmentType::DefaultValue, None)),
        ChangeType::Breaking,
        ChangeType::NonBreaking,
        ChangeType::Breaking,
        true,
        view_opt_string(l.default_value),
        view_opt_string(r.default_value),
    ) + description_reports(loc, view_opt_string(l.description), view_opt_string(r.description))
        + directive_list_reports(loc, l.directives@, r.directives@)
}

/// The matched-pair comparator the input-value correlation uses; the pushed
/// segment kind distinguishes field arguments from input-object fields.
pub open spec fn input_value_compare_fn(
    outer: Seq<DiffLocationSegmentView>,
    seg: DiffLocationSegmentType,
) -> spec_fn(InputValueDefinition, InputValueDefinition) -> Seq<ReportEntryView> {
    |l: InputValueDefinition, r: InputValueDefinition|
        input_value_reports(outer.push(segment_view(seg, Some(r.spec_name()))), l, r)
}

/// Reports for two input-value lists, correlated by name.
pub open spec fn input_value_list_reports(
    outer: Seq<DiffLocationSegmentView>,
    seg: DiffLocationSegmentType,
    left: Seq<InputValueDefinition>,
    right: Seq<InputValueDefinition>,
) -> Seq<ReportEntryView> {
    correlate_reports(
        left,
        right,
        outer.push(segment_view(seg, None)),
        input_value_classifier(),
        input_value_compare_fn(outer, seg),
    )
}

/// Compares a matched pair of input values.
pub fn compare_input_value_definitions(
    loc: &DiffLocation,
    l: &InputValueDefinition,
    r: &InputValueDefinition,
) -> (out: Vec<ReportEntry>)
    requires
        l.spec_name() == r.spec_name(),
    ensures
        entries(out@) == input_value_reports(loc@, *l, *r),
{
    let mut out: Vec<ReportEntry> = Vec::new();

    let type_loc = loc.push(DiffLocationSegmentType::Type, None);
    let mut part = compare_types(&type_loc, &l.ty, &r.ty);
    let ghost out0 = out@;
    let ghost part1 = part@;
    out.append(&mut part);
    proof {
        lemma_entries_add(out0, part1);
    }

    let default_loc = loc.push(DiffLocationSegmentType::DefaultValue, None);
    let mut part = compare_optional_strings(
        &default_loc,
        ChangeType::Breaking,
        ChangeType::NonBreaking,
        ChangeType::Breaking,
        true,
        &l.default_value,
        &r.default_value,
    );
    let ghost out1 = out@;
    let ghost part2 = part@;
    out.append(&mut part);
    proof {
        lemma_entries_add(out1, part2);
    }

    let desc_loc = loc.push(DiffLocationSegmentType::Description, None);
    let mut part = compare_optional_strings(
        &desc_loc,
        ChangeType::NonBreaking,
        ChangeType::NonBreaking,
        ChangeType::NonBreaking,
        false,
        &l.description,
        &r.description,
    );
    let ghost out2 = out@;
    let ghost part3 = part@;
    out.append(&mut part);
    proof {
        lemma_entries_add(out2, part3);
    }

    let mut part = correlate_directives(loc, &l.directives, &r.directives);
    let ghost out3 = out@;
    let ghost part4 = part@;
    out.append(&mut part);
    proof {
        lemma_entries_add(out3, part4);
    }

    out
}

/// Correlates two input-value lists by name.
pub fn correlate_input_values(
    outer: &DiffLocation,
    seg: DiffLocationSegmentType,
    left: &Vec<InputValueDefinition>,
    right: &Vec<InputValueDefinition>,
) -> (out: Vec<ReportEntry>)
    ensures
        entries(out@) == input_value_list_reports(outer@, seg, left@, right@),
{
    let loc = outer.push(seg, None);
    let mut out: Vec<ReportEntry> = Vec::new();
    let mut i: usize = 0;
    while i < right.len()
        invariant
            i <= right@.len(),
            loc@ == outer@.push(segment_view(seg, None)),
            entries(out@) == correlate_add_upto(
                left@,
                right@,
                loc@,
                input_value_classifier(),
                input_value_compare_fn(outer@, seg),
                i as int,
            ),
        decreases right@.len() - i,
    {
        let r = &right[i];
        let ghost out_before = out@;
        match find_by_name(left, &r.name) {
            Some(j) => {
                proof {
                    lemma_find_named_properties(left@, r.name@);
                }
                let named_loc = outer.push(seg, Some(r.name.clone()));
                let mut sub = compare_input_value_definitions(&named_loc, &left[j], r);
                let ghost sub_view = sub@;
                out.append(&mut sub);
                proof {
                    lemma_entries_add(out_before, sub_view);
                }
            }
            None => {
                let change_type = classify_added_input_value(r);
                out.push(
                    ReportEntry {
                        location: loc.duplicate(),
                        kind: ReportKind::ItemAdded { name: r.name.clone() },
                        change_type,
                    },
                );
                proof {
                    lemma_entries_push(out_before, out@[out@.len() - 1]);
                }
            }
        }
        i = i + 1;
    }
    let mut i: usize = 0;
    while i < left.len()
        invariant
            i <= left@.len(),
            loc@ == outer@.push(segment_view(seg, None)),
            entries(out@) == correlate_add_upto(
                left@,
                right@,
                loc@,
                input_value_classifier(),
                input_value_compare_fn(outer@, seg),
                right@.len() as int,
            ) + correlate_removed_upto(left@, right@, loc@, i as int),
        decreases left@.len() - i,
    {
        let l = &left[i];
        let ghost out_before = out@;
        match find_by_name(right, &l.name) {
            Some(j) => {
                proof {
                    assert(entries(out@) =~= entries(out_before) + Seq::<
                        ReportEntryView,
                    >::empty());
                }
            }
            None => {
                out.push(
                    ReportEntry {
                        location: loc.duplicate(),
                        kind: ReportKind::ItemRemoved { name: l.name.clone() },
                        change_type: ChangeType::Breaking,
                    },
                );
                proof {
                    lemma_entries_push(out_before, out@[out@.len() - 1]);
                }
            }
        }
        i = i + 1;
    }
    out
}

// ---------------------------------------------------------------------------
// Fields
// ---------------------------------------------------------------------------

/// Reports for a matched pair of fields: type reference, description,
/// arguments, then applied directives.
pub open spec fn field_reports(
    loc: Seq<DiffLocationSegmentView>,
    l: FieldDefinition,
    r: FieldDefinition,
) -> Seq<ReportEntryView> {
    type_reports(loc.push(segment_view(DiffLocationSegmentType::Type, None)), l.ty, r.ty)
        + description_reports(loc, view_opt_string(l.description), view_opt_string(r.description))
        + input_value_list_reports(
        loc,
        DiffLocationSegmentType::InputArgument,
        l.arguments@,
        r.arguments@,
    ) + directive_list_reports(loc, l.directives@, r.directives@)
}

/// The matched-pair comparator the field correlation uses. The pushed name
/// is taken from the side the caller chooses; a matched pair carries the
/// same name on both sides.
pub open spec fn field_compare_fn(
    outer: Seq<DiffLocationSegmentView>,
    use_left_name: bool,
) -> spec_fn(FieldDefinition, FieldDefinition) -> Seq<ReportEntryView> {
    |l: FieldDefinition, r: FieldDefinition|
        field_reports(
            outer.push(
                segment_view(
                    DiffLocationSegmentType::Field,
                    Some(
                        if use_left_name {
                            l.spec_name()
                        } else {
                            r.spec_name()
                        },
                    ),
                ),
            ),
            l,
            r,
        )
}

/// Reports for two field lists, correlated by field name; a new field is
/// non-breaking.
pub open spec fn field_list_reports(
    outer: Seq<DiffLocationSegmentView>,
    use_left_name: bool,
    left: Seq<FieldDefinition>,
    right: Seq<FieldDefinition>,
) -> Seq<ReportEntryView> {
    correlate_reports(
        left,
        right,
        outer.push(segment_view(DiffLocationSegmentType::Field, None)),
        const_classifier(ChangeType::NonBreaking),
        field_compare_fn(outer, use_left_name),
    )
}

/// Compares a matched pair of fields.
pub fn compare_field_definitions(
    loc: &DiffLocation,
    l: &FieldDefinition,
    r: &FieldDefinition,
) -> (out: Vec<ReportEntry>)
    requires
        l.spec_name() == r.spec_name(),
    ensures
        entries(out@) == field_reports(loc@, *l, *r),
{
    let mut out: Vec<ReportEntry> = Vec::new();

    let type_loc = loc.push(DiffLocationSegmentType::Type, None);
    let mut part = compare_types(&type_loc, &l.ty, &r.ty);
    let ghost out0 = out@;
    let ghost part1 = part@;
    out.append(&mut part);
    proof {
        lemma_entries_add(out0, part1);
    }

    let desc_loc = loc.push(DiffLocationSegmentType::Description, None);
    let mut part = compare_optional_strings(
        &desc_loc,
        ChangeType::NonBreaking,
        ChangeType::NonBreaking,
        ChangeType::NonBreaking,
        false,
        &l.description,
        &r.description,
    );
    let ghost out1 = out@;
    let ghost part2 = part@;
    out.append(&mut part);
    proof {
        lemma_entries_add(out1, part2);
    }

    let mut part = correlate_input_values(
        loc,
        DiffLocationSegmentType::InputArgument,
        &l.arguments,
        &r.arguments,
    );
    let ghost out2 = out@;
    let ghost part3 = part@;
    out.append(&mut part);
    proof {
        lemma_entries_add(out2, part3);
    }

    let mut part = correlate_directives(loc, &l.directives, &r.directives);
    let ghost out3 = out@;
    let ghost part4 = part@;
    out.append(&mut part);
    proof {
        lemma_entries_add(out3, part4);
    }

    out
}

/// Correlates two field lists by field name. The caller chooses which side's
/// name labels the location pushed for a matched pair.
pub fn correlate_fields(
    outer: &DiffLocation,
    use_left_name: bool,
    left: &Vec<FieldDefinition>,
    right: &Vec<FieldDefinition>,
) -> (out: Vec<ReportEntry>)
    ensures
        entries(out@) == field_list_reports(outer@, use_left_name, left@, right@),
{
    let loc = outer.push(DiffLocationSegmentType::Field, None);
    let mut out: Vec<ReportEntry> = Vec::new();
    let mut i: usize = 0;
    while i < right.len()
        invariant
            i <= right@.len(),
            loc@ == outer@.push(segment_view(DiffLocationSegmentType::Field, None)),
            entries(out@) == correlate_add_upto(
                left@,
                right@,
                loc@,
                const_classifier(ChangeType::NonBreaking),
                field_compare_fn(outer@, use_left_name),
                i as int,
            ),
        decreases right@.len() - i,
    {
        let r = &right[i];
        let ghost out_before = out@;
        match find_by_name(left, &r.name) {
            Some(j) => {
                proof {
                    lemma_find_named_properties(left@, r.name@);
                }
                let l = &left[j];
                let named_loc = if use_left_name {
                    outer.push(DiffLocationSegmentType::Field, Some(l.name.clone()))
                } else {
                    outer.push(DiffLocationSegmentType::Field, Some(r.name.clone()))
                };
                let mut sub = compare_field_definitions(&named_loc, l, r);
                let ghost sub_view = sub@;
                out.append(&mut sub);
                proof {
                    lemma_entries_add(out_before, sub_view);
                }
            }
            None => {
                out.push(
                    ReportEntry {
                        location: loc.duplicate(),
                        kind: ReportKind::ItemAdded { name: r.name.clone() },
                        change_type: ChangeType::NonBreaking,
                    },
                );
                proof {
                    lemma_entries_push(out_before, out@[out@.len() - 1]);
                }
            }
        }
        i = i + 1;
    }
    let mut i: usize = 0;
    while i < left.len()
        invariant
            i <= left@.len(),
            loc@ == outer@.push(segment_view(DiffLocationSegmentType::Field, None)),
            entries(out@) == correlate_add_upto(
                left@,
                right@,
                loc@,
                const_classifier(ChangeType::NonBreaking),
                field_compare_fn(outer@, use_left_name),
                right@.len() as int,
            ) + correlate_removed_upto(left@, right@, loc@, i as int),
        decreases left@.len() - i,
    {
        let l = &left[i];
        let ghost out_before = out@;
        match find_by_name(right, &l.name) {
            Some(j) => {
                proof {
                    assert(entries(out@) =~= entries(out_before) + Seq::<
                        ReportEntryView,
                    >::empty());
                }
            }
            None => {
                out.push(
                    ReportEntry {
                        location: loc.duplicate(),
                        kind: ReportKind::ItemRemoved { name: l.name.clone() },
                        change_type: ChangeType::Breaking,
                    },
                );
                proof {
                    lemma_entries_push(out_before, out@[out@.len() - 1]);
                }
            }
        }
        i = i + 1;
    }
    out
}

// ---------------------------------------------------------------------------
// Name lists (implemented interfaces and union members)
// ---------------------------------------------------------------------------

/// The comparator for matched plain names: same name, nothing to compare.
pub open spec fn name_compare_fn() -> spec_fn(String, String) -> Seq<ReportEntryView> {
    |l: String, r: String| Seq::empty()
}

/// Reports for two plain name lists, correlated by the names themselves;
/// the caller classifies an addition.
pub open spec fn name_list_reports(
    outer: Seq<DiffLocationSegmentView>,
    seg: DiffLocationSegmentType,
    change_type_if_added: ChangeType,
    left: Seq<String>,
    right: Seq<String>,
) -> Seq<ReportEntryView> {
    correlate_reports(
        left,
        right,
        outer.push(segment_view(seg, None)),
        const_classifier(change_type_if_added),
        name_compare_fn(),
    )
}

/// Correlates two plain name lists; only additions and removals are
/// reported, a matched name has nothing to compare.
pub fn correlate_names(
    outer: &DiffLocation,
    seg: DiffLocationSegmentType,
    change_type_if_added: ChangeType,
    left: &Vec<String>,
    right: &Vec<String>,
) -> (out: Vec<ReportEntry>)
    ensures
        entries(out@) == name_list_reports(outer@, seg, change_type_if_added, left@, right@),
{
    let loc = outer.push(seg, None);
    let mut out: Vec<ReportEntry> = Vec::new();
    let mut i: usize = 0;
    while i < right.len()
        invariant
            i <= right@.len(),
            loc@ == outer@.push(segment_view(seg, None)),
            entries(out@) == correlate_add_upto(
                left@,
                right@,
                loc@,
                const_classifier(change_type_if_added),
                name_compare_fn(),
                i as int,
            ),
        decreases right@.len() - i,
    {
        let r = &right[i];
        let ghost out_before = out@;
        match find_by_name(left, r) {
            Some(j) => {
                proof {
                    assert(entries(out@) =~= entries(out_before) + Seq::<
                        ReportEntryView,
                    >::empty());
                }
            }
            None => {
                out.push(
                    ReportEntry {
                        location: loc.duplicate(),
                        kind: ReportKind::ItemAdded { name: r.clone() },
                        change_type: change_type_if_added,
                    },
                );
                proof {
                    lemma_entries_push(out_before, out@[out@.len() - 1]);
                }
            }
        }
        i = i + 1;
    }
    let mut i: usize = 0;
    while i < left.len()
        invariant
            i <= left@.len(),
            loc@ == outer@.push(segment_view(seg, None)),
            entries(out@) == correlate_add_upto(
                left@,
                right@,
                loc@,
                const_classifier(change_type_if_added),
                name_compare_fn(),
                right@.len() as int,
            ) + correlate_removed_upto(left@, right@, loc@, i as int),
        decreases left@.len() - i,
    {
        let l = &left[i];
        let ghost out_before = out@;
        match find_by_name(right, l) {
            Some(j) => {
                proof {
                    assert(entries(out@) =~= entries(out_before) + Seq::<
                        ReportEntryView,
                    >::empty());
                }
            }
            None => {
                out.push(
                    ReportEntry {
                        location: loc.duplicate(),
                        kind: ReportKind::ItemRemoved { name: l.clone() },
                        change_type: ChangeType::Breaking,
                    },
                );
                proof {
                    lemma_entries_push(out_before, out@[out@.len() - 1]);
                }
            }
        }
        i = i + 1;
    }
    out
}

// ---------------------------------------------------------------------------
// Enum values
// ---------------------------------------------------------------------------

/// Reports for a matched pair of enum values: description, then applied
/// directives.
pub open spec fn enum_value_reports(
    loc: Seq<DiffLocationSegmentView>,
    l: EnumValueDefinition,
    r: EnumValueDefinition,
) -> Seq<ReportEntryView> {
    description_reports(loc, view_opt_string(l.description), view_opt_string(r.description))
        + directive_list_reports(loc, l.directives@, r.directives@)
}

/// The matched-pair comparator the enum-value correlation uses.
pub open spec fn enum_value_compare_fn(outer: Seq<DiffLocationSegmentView>) -> spec_fn(
    EnumValueDefinition,
    EnumValueDefinition,
) -> Seq<ReportEntryView> {
    |l: EnumValueDefinition, r: EnumValueDefinition|
        enum_value_reports(
            outer.push(
                segment_view(DiffLocationSegmentType::EnumValueDefinition, Some(r.spec_name())),
            ),
            l,
            r,
        )
}

/// Reports for two enum-value lists, correlated by the value literal; a new
/// value is non-breaking.
pub open spec fn enum_value_list_reports(
    outer: Seq<DiffLocationSegmentView>,
    left: Seq<EnumValueDefinition>,
    right: Seq<EnumValueDefinition>,
) -> Seq<ReportEntryView> {
    correlate_reports(
        left,
        right,
        outer.push(segment_view(DiffLocationSegmentType::EnumValueDefinition, None)),
        const_classifier(ChangeType::NonBreaking),
        enum_value_compare_fn(outer),
    )
}

/// Compares a matched pair of enum values.
pub fn compare_enum_value_definitions(
    loc: &DiffLocation,
    l: &EnumValueDefinition,
    r: &EnumValueDefinition,
) -> (out: Vec<ReportEntry>)
    requires
        l.spec_name() == r.spec_name(),
    ensures
        entries(out@) == enum_value_reports(loc@, *l, *r),
{
    let mut out: Vec<ReportEntry> = Vec::new();

    let desc_loc = loc.push(DiffLocationSegmentType::Description, None);
    let mut part = compare_optional_strings(
        &desc_loc,
        ChangeType::NonBreaking,
        ChangeType::NonBreaking,
        ChangeType::NonBreaking,
        false,
        &l.description,
        &r.description,
    );
    let ghost out0 = out@;
    let ghost part1 = part@;
    out.append(&mut part);
    proof {
        lemma_entries_add(out0, part1);
    }

    let mut part = correlate_directives(loc, &l.directives, &r.directives);
    let ghost out1 = out@;
    let ghost part2 = part@;
    out.append(&mut part);
    proof {
        lemma_entries_add(out1, part2);
    }

    out
}

/// Correlates two enum-value lists by value literal.
pub fn correlate_enum_values(
    outer: &DiffLocation,
    left: &Vec<EnumValueDefinition>,
    right: &Vec<EnumValueDefinition>,
) -> (out: Vec<ReportEntry>)
    ensures
        entries(out@) == enum_value_list_reports(outer@, left@, right@),
{
    let loc = outer.push(DiffLocationSegmentType::EnumValueDefinition, None);
    let mut out: Vec<ReportEntry> = Vec::new();
    let mut i: usize = 0;
    while i < right.len()
        invariant
            i <= right@.len(),
            loc@ == outer@.push(
                segment_view(DiffLocationSegmentType::EnumValueDefinition, None),
            ),
            entries(out@) == correlate_add_upto(
                left@,
                right@,
                loc@,
                const_classifier(ChangeType::NonBreaking),
                enum_value_compare_fn(outer@),
                i as int,
            ),
        decreases right@.len() - i,
    {
        let r = &right[i];
        let ghost out_before = out@;
        match find_by_name(left, &r.value) {
            Some(j) => {
                proof {
                    lemma_find_named_properties(left@, r.value@);
                }
                let named_loc = outer.push(
                    DiffLocationSegmentType::EnumValueDefinition,
                    Some(r.value.clone()),
                );
                let mut sub = compare_enum_value_definitions(&named_loc, &left[j], r);
                let ghost sub_view = sub@;
                out.append(&mut sub);
                proof {
                    lemma_entries_add(out_before, sub_view);
                }
            }
            None => {
                out.push(
                    ReportEntry {
                        location: loc.duplicate(),
                        kind: ReportKind::ItemAdded { name: r.value.clone() },
                        change_type: ChangeType::NonBreaking,
                    },
                );
                proof {
                    lemma_entries_push(out_before, out@[out@.len() - 1]);
                }
            }
        }
        i = i + 1;
    }
    let mut i: usize = 0;
    while i < left.len()
        invariant
            i <= left@.len(),
            loc@ == outer@.push(
                segment_view(DiffLocationSegmentType::EnumValueDefinition, None),
            ),
            entries(out@) == correlate_add_upto(
                left@,
                right@,
                loc@,
                const_classifier(ChangeType::NonBreaking),
                enum_value_compare_fn(outer@),
                right@.len() as int,
            ) + correlate_removed_upto(left@, right@, loc@, i as int),
        decreases left@.len() - i,
    {
        let l = &left[i];
        let ghost out_before = out@;
        match find_by_name(right, &l.value) {
            Some(j) => {
                proof {
                    assert(entries(out@) =~= entries(out_before) + Seq::<
                        ReportEntryView,
                    >::empty());
                }
            }
            None => {
                out.push(
                    ReportEntry {
                        location: loc.duplicate(),
                        kind: ReportKind::ItemRemoved { name: l.value.clone() },
                        change_type: ChangeType::Breaking,
                    },
                );
                proof {
                    lemma_entries_push(out_before, out@[out@.len() - 1]);
                }
            }
        }
        i = i + 1;
    }
    out
}

// ---------------------------------------------------------------------------
// Type definitions
// ---------------------------------------------------------------------------

/// Reports for a matched pair of object types: implemented interfaces, then
/// fields.
pub open spec fn object_type_reports(
    loc: Seq<DiffLocationSegmentView>,
    l: ObjectType,
    r: ObjectType,
) -> Seq<ReportEntryView> {
    name_list_reports(
        loc,
        DiffLocationSegmentType::Implements,
        ChangeType::NonBreaking,
        l.implements@,
        r.implements@,
    ) + field_list_reports(loc, true, l.fields@, r.fields@)
}

/// Reports for a matched pair of interface types: implemented interfaces,
/// then fields.
pub open spec fn interface_type_reports(
    loc: Seq<DiffLocationSegmentView>,
    l: InterfaceType,
    r: InterfaceType,
) -> Seq<ReportEntryView> {
    name_list_reports(
        loc,
        DiffLocationSegmentType::Implements,
        ChangeType::NonBreaking,
        l.implements@,
        r.implements@,
    ) + field_list_reports(loc, false, l.fields@, r.fields@)
}

/// Reports for a matched pair of union types; a member added or removed
/// changes an exhaustive match set, so both directions are breaking.
pub open spec fn union_type_reports(
    loc: Seq<DiffLocationSegmentView>,
    l: UnionType,
    r: UnionType,
) -> Seq<ReportEntryView> {
    name_list_reports(
        loc,
        DiffLocationSegmentType::UnionMemberDefinition,
        ChangeType::Breaking,
        l.members@,
        r.members@,
    )
}

/// Reports for a matched pair of enum types: their values correlated.
pub open spec fn enum_type_reports(
    loc: Seq<DiffLocationSegmentView>,
    l: EnumType,
    r: EnumType,
) -> Seq<ReportEntryView> {
    enum_value_list_reports(loc, l.values@, r.values@)
}

/// Reports for a matched pair of input object types: their fields
/// correlated.
pub open spec fn input_object_type_reports(
    loc: Seq<DiffLocationSegmentView>,
    l: InputObjectType,
    r: InputObjectType,
) -> Seq<ReportEntryView> {
    input_value_list_reports(loc, DiffLocationSegmentType::Field, l.fields@, r.fields@)
}

/// The location a matched pair of type definitions is reported under: the
/// kind-specific segment when both sides have the same kind, the generic
/// type-definition segment otherwise.
pub open spec fn type_definition_loc(l: TypeDefinition, r: TypeDefinition) -> Seq<
    DiffLocationSegmentView,
> {
    let name = Some(r.name@);
    match (l.kind, r.kind) {
        (TypeKind::Object(a), TypeKind::Object(b)) => Seq::empty().push(
            segment_view(DiffLocationSegmentType::ObjectDefinition, name),
        ),
        (TypeKind::Interface(a), TypeKind::Interface(b)) => Seq::empty().push(
            segment_view(DiffLocationSegmentType::InterfaceDefinition, name),
        ),
        (TypeKind::Union(a), TypeKind::Union(b)) => Seq::empty().push(
            segment_view(DiffLocationSegmentType::UnionDefinition, name),
        ),
        (TypeKind::Enum(a), TypeKind::Enum(b)) => Seq::empty().push(
            segment_view(DiffLocationSegmentType::EnumDefinition, name),
        ),
        (TypeKind::InputObject(a), TypeKind::InputObject(b)) => Seq::empty().push(
            segment_view(DiffLocationSegmentType::InputObject, name),
        ),
        _ => Seq::empty().push(segment_view(DiffLocationSegmentType::TypeDefinition, name)),
    }
}

/// Reports from the kinds of a matched pair of type definitions: the
/// kind-specific comparison when the kinds agree, a single breaking type
/// mismatch otherwise — without descending into either kind's internals.
pub open spec fn type_kind_reports(l: TypeDefinition, r: TypeDefinition) -> Seq<ReportEntryView> {
    match (l.kind, r.kind) {
        (TypeKind::Scalar, TypeKind::Scalar) => Seq::empty(),
        (TypeKind::Object(a), TypeKind::Object(b)) => object_type_reports(
            type_definition_loc(l, r),
            a,
            b,
        ),
        (TypeKind::Interface(a), TypeKind::Interface(b)) => interface_type_reports(
            type_definition_loc(l, r),
            a,
            b,
        ),
        (TypeKind::Union(a), TypeKind::Union(b)) => union_type_reports(
            type_definition_loc(l, r),
            a,
            b,
        ),
        (TypeKind::Enum(a), TypeKind::Enum(b)) => enum_type_reports(
            type_definition_loc(l, r),
            a,
            b,
        ),
        (TypeKind::InputObject(a), TypeKind::InputObject(b)) => input_object_type_reports(
            type_definition_loc(l, r),
            a,
            b,
        ),
        _ => seq![
            ReportEntryView {
                location: type_definition_loc(l, r),
                kind: ReportKindView::TypeMismatch { name: r.name@ },
                change_type: ChangeType::Breaking,
            },
        ],
    }
}

/// Reports for a matched pair of type definitions: the kind comparison,
/// then the extend marker, description, and applied directives.
pub open spec fn type_definition_reports(l: TypeDefinition, r: TypeDefinition) -> Seq<
    ReportEntryView,
> {
    let loc = type_definition_loc(l, r);
    type_kind_reports(l, r) + bool_reports(
        loc.push(segment_view(DiffLocationSegmentType::Extends, None)),
        l.extend,
        r.extend,
        ChangeType::NonBreaking,
    ) + description_reports(loc, view_opt_string(l.description), view_opt_string(r.description))
        + directive_list_reports(loc, l.directives@, r.directives@)
}

/// The matched-pair comparator the type-definition correlation uses.
pub open spec fn type_definition_compare_fn() -> spec_fn(TypeDefinition, TypeDefinition) -> Seq<
    ReportEntryView,
> {
    |l: TypeDefinition, r: TypeDefinition| type_definition_reports(l, r)
}

/// Reports for the two documents' type-definition lists; a new type is
/// non-breaking.
pub open spec fn type_definition_list_reports(
    left: Seq<TypeDefinition>,
    right: Seq<TypeDefinition>,
) -> Seq<ReportEntryView> {
    correlate_reports(
        left,
        right,
        Seq::empty().push(segment_view(DiffLocationSegmentType::TypeDefinition, None)),
        const_classifier(ChangeType::NonBreaking),
        type_definition_compare_fn(),
    )
}

fn compare_object_types(loc: &DiffLocation, l: &ObjectType, r: &ObjectType) -> (out: Vec<
    ReportEntry,
>)
    ensures
        entries(out@) == object_type_reports(loc@, *l, *r),
{
    let mut out = correlate_names(
        loc,
        DiffLocationSegmentType::Implements,
        ChangeType::NonBreaking,
        &l.implements,
        &r.implements,
    );
    let mut part = correlate_fields(loc, true, &l.fields, &r.fields);
    let ghost out0 = out@;
    let ghost part1 = part@;
    out.append(&mut part);
    proof {
        lemma_entries_add(out0, part1);
    }
    out
}

fn compare_interface_types(loc: &DiffLocation, l: &InterfaceType, r: &InterfaceType) -> (out: Vec<
    ReportEntry,
>)
    ensures
        entries(out@) == interface_type_reports(loc@, *l, *r),
{
    let mut out = correlate_names(
        loc,
        DiffLocationSegmentType::Implements,
        ChangeType::NonBreaking,
        &l.implements,
        &r.implements,
    );
    let mut part = correlate_fields(loc, false, &l.fields, &r.fields);
    let ghost out0 = out@;
    let ghost part1 = part@;
    out.append(&mut part);
    proof {
        lemma_entries_add(out0, part1);
    }
    out
}

fn compare_union_types(loc: &DiffLocation, l: &UnionType, r: &UnionType) -> (out: Vec<ReportEntry>)
    ensures
        entries(out@) == union_type_reports(loc@, *l, *r),
{
    correlate_names(
        loc,
        DiffLocationSegmentType::UnionMemberDefinition,
        ChangeType::Breaking,
        &l.members,
        &r.members,
    )
}

fn compare_enum_types(loc: &DiffLocation, l: &EnumType, r: &EnumType) -> (out: Vec<ReportEntry>)
    ensures
        entries(out@) == enum_type_reports(loc@, *l, *r),
{
    correlate_enum_values(loc, &l.values, &r.values)
}

fn compare_input_object_types(loc: &DiffLocation, l: &InputObjectType, r: &InputObjectType) -> (out:
    Vec<ReportEntry>)
    ensures
        entries(out@) == input_object_type_reports(loc@, *l, *r),
{
    correlate_input_values(loc, DiffLocationSegmentType::Field, &l.fields, &r.fields)
}

/// Compares a matched pair of type definitions.
pub fn compare_type_definitions(l: &TypeDefinition, r: &TypeDefinition) -> (out: Vec<ReportEntry>)
    requires
        l.spec_name() == r.spec_name(),
    ensures
        entries(out@) == type_definition_reports(*l, *r),
{
    let mut out: Vec<ReportEntry> = Vec::new();
    let mut loc = DiffLocation::new(
        DiffLocationSegmentType::TypeDefinition,
        Some(r.name.clone()),
    );
    match (&l.kind, &r.kind) {
        (TypeKind::Scalar, TypeKind::Scalar) => {
            // the names already match, so two scalars cannot differ
        }
        (TypeKind::Object(a), TypeKind::Object(b)) => {
            loc = DiffLocation::new(
                DiffLocationSegmentType::ObjectDefinition,
                Some(r.name.clone()),
            );
            let mut part = compare_object_types(&loc, a, b);
            let ghost out0 = out@;
            let ghost part1 = part@;
            out.append(&mut part);
            proof {
                lemma_entries_add(out0, part1);
            }
        }
        (TypeKind::Interface(a), TypeKind::Interface(b)) => {
            loc = DiffLocation::new(
                DiffLocationSegmentType::InterfaceDefinition,
                Some(r.name.clone()),
            );
            let mut part = compare_interface_types(&loc, a, b);
            let ghost out0 = out@;
            let ghost part1 = part@;
            out.append(&mut part);
            proof {
                lemma_entries_add(out0, part1);
            }
        }
        (TypeKind::Union(a), TypeKind::Union(b)) => {
            loc = DiffLocation::new(
                DiffLocationSegmentType::UnionDefinition,
                Some(r.name.clone()),
            );
            let mut part = compare_union_types(&loc, a, b);
            let ghost out0 = out@;
            let ghost part1 = part@;
            out.append(&mut part);
            proof {
                lemma_entries_add(out0, part1);
            }
        }
        (TypeKind::Enum(a), TypeKind::Enum(b)) => {
            loc = DiffLocation::new(
                DiffLocationSegmentType::EnumDefinition,
                Some(r.name.clone()),
            );
            let mut part = compare_enum_types(&loc, a, b);
            let ghost out0 = out@;
            let ghost part1 = part@;
            out.append(&mut part);
            proof {
                lemma_entries_add(out0, part1);
            }
        }
        (TypeKind::InputObject(a), TypeKind::InputObject(b)) => {
            loc = DiffLocation::new(
                DiffLocationSegmentType::InputObject,
                Some(r.name.clone()),
            );
            let mut part = compare_input_object_types(&loc, a, b);
            let ghost out0 = out@;
            let ghost part1 = part@;
            out.append(&mut part);
            proof {
                lemma_entries_add(out0, part1);
            }
        }
        // comparing types of different kinds; enumerating the left kinds
        // keeps this match exhaustive when a new kind is introduced
        (TypeKind::Scalar, _)
        | (TypeKind::Object(_), _)
        | (TypeKind::Interface(_), _)
        | (TypeKind::Union(_), _)
        | (TypeKind::Enum(_), _)
        | (TypeKind::InputObject(_), _) => {
            let ghost out_before = out@;
            out.push(
                ReportEntry {
                    location: loc.duplicate(),
                    kind: ReportKind::TypeMismatch { name: r.name.clone() },
                    change_type: ChangeType::Breaking,
                },
            );
            proof {
                lemma_entries_push(out_before, out@[out@.len() - 1]);
            }
        }
    }
    proof {
        assert(loc@ == type_definition_loc(*l, *r));
        assert(entries(out@) =~= type_kind_reports(*l, *r));
    }

    let ext_loc = loc.push(DiffLocationSegmentType::Extends, None);
    let mut part = compare_bools(&ext_loc, l.extend, r.extend, ChangeType::NonBreaking);
    let ghost out1 = out@;
    let ghost part2 = part@;
    out.append(&mut part);
    proof {
        lemma_entries_add(out1, part2);
    }

    let desc_loc = loc.push(DiffLocationSegmentType::Description, None);
    let mut part = compare_optional_strings(
        &desc_loc,
        ChangeType::NonBreaking,
        ChangeType::NonBreaking,
        ChangeType::NonBreaking,
        false,
        &l.description,
        &r.description,
    );
    let ghost out2 = out@;
    let ghost part3 = part@;
    out.append(&mut part);
    proof {
        lemma_entries_add(out2, part3);
    }

    let mut part = correlate_directives(&loc, &l.directives, &r.directives);
    let ghost out3 = out@;
    let ghost part4 = part@;
    out.append(&mut part);
    proof {
        lemma_entries_add(out3, part4);
    }

    out
}

/// Correlates the two documents' type-definition lists by type name.
pub fn correlate_type_definitions(
    left: &Vec<TypeDefinition>,
    right: &Vec<TypeDefinition>,
) -> (out: Vec<ReportEntry>)
    ensures
        entries(out@) == type_definition_list_reports(left@, right@),
{
    let loc = DiffLocation::new(DiffLocationSegmentType::TypeDefinition, None);
    let mut out: Vec<ReportEntry> = Vec::new();
    let mut i: usize = 0;
    while i < right.len()
        invariant
            i <= right@.len(),
            loc@ == Seq::empty().push(
                segment_view(DiffLocationSegmentType::TypeDefinition, None),
            ),
            entries(out@) == correlate_add_upto(
                left@,
                right@,
                loc@,
                const_classifier(ChangeType::NonBreaking),
                type_definition_compare_fn(),
                i as int,
            ),
        decreases right@.len() - i,
    {
        let r = &right[i];
        let ghost out_before = out@;
        match find_by_name(left, &r.name) {
            Some(j) => {
                proof {
                    lemma_find_named_properties(left@, r.name@);
                }
                let mut sub = compare_type_definitions(&left[j], r);
                let ghost sub_view = sub@;
                out.append(&mut sub);
                proof {
                    lemma_entries_add(out_before, sub_view);
                }
            }
            None => {
                out.push(
                    ReportEntry {
                        location: loc.duplicate(),
                        kind: ReportKind::ItemAdded { name: r.name.clone() },
                        change_type: ChangeType::NonBreaking,
                    },
                );
                proof {
                    lemma_entries_push(out_before, out@[out@.len() - 1]);
                }
            }
        }
        i = i + 1;
    }
    let mut i: usize = 0;
    while i < left.len()
        invariant
            i <= left@.len(),
            loc@ == Seq::empty().push(
                segment_view(DiffLocationSegmentType::TypeDefinition, None),
            ),
            entries(out@) == correlate_add_upto(
                left@,
                right@,
                loc@,
                const_classifier(ChangeType::NonBreaking),
                type_definition_compare_fn(),
                right@.len() as int,
            ) + correlate_removed_upto(left@, right@, loc@, i as int),
        decreases left@.len() - i,
    {
        let l = &left[i];
        let ghost out_before = out@;
        match find_by_name(right, &l.name) {
            Some(j) => {
                proof {
                    assert(entries(out@) =~= entries(out_before) + Seq::<
                        ReportEntryView,
                    >::empty());
                }
            }
            None => {
                out.push(
                    ReportEntry {
                        location: loc.duplicate(),
                        kind: ReportKind::ItemRemoved { name: l.name.clone() },
                        change_type: ChangeType::Breaking,
                    },
                );
                proof {
                    lemma_entries_push(out_before, out@[out@.len() - 1]);
                }
            }
        }
        i = i + 1;
    }
    out
}

// ---------------------------------------------------------------------------
// The schema-root definition
// ---------------------------------------------------------------------------

/// Reports for a root operation type name: an addition is non-breaking, a
/// change or removal is breaking, and the name is echoed.
pub open spec fn operation_reports(
    outer: Seq<DiffLocationSegmentView>,
    seg: DiffLocationSegmentType,
    left: Option<Seq<char>>,
    right: Option<Seq<char>>,
) -> Seq<ReportEntryView> {
    optional_string_reports(
        outer.push(segment_view(seg, None)),
        ChangeType::Breaking,
        ChangeType::NonBreaking,
        ChangeType::Breaking,
        true,
        left,
        right,
    )
}

/// Reports for a matched pair of schema-root definitions: the extend
/// marker, applied directives, then the three root operation type names.
pub open spec fn schema_definition_reports(l: SchemaDefinition, r: SchemaDefinition) -> Seq<
    ReportEntryView,
> {
    let loc = Seq::empty().push(
        segment_view(DiffLocationSegmentType::SchemaDefinition, Some("schema"@)),
    );
    bool_reports(
        loc.push(segment_view(DiffLocationSegmentType::Extends, None)),
        l.extend,
        r.extend,
        ChangeType::NonBreaking,
    ) + directive_list_reports(loc, l.directives@, r.directives@) + operation_reports(
        loc,
        DiffLocationSegmentType::Query,
        view_opt_string(l.query),
        view_opt_string(r.query),
    ) + operation_reports(
        loc,
        DiffLocationSegmentType::Mutation,
        view_opt_string(l.mutation),
        view_opt_string(r.mutation),
    ) + operation_reports(
        loc,
        DiffLocationSegmentType::Subscription,
        view_opt_string(l.subscription),
        view_opt_string(r.subscription),
    )
}

/// The matched-pair comparator the schema-definition correlation uses.
pub open spec fn schema_definition_compare_fn() -> spec_fn(
    SchemaDefinition,
    SchemaDefinition,
) -> Seq<ReportEntryView> {
    |l: SchemaDefinition, r: SchemaDefinition| schema_definition_reports(l, r)
}

/// Reports for the two documents' schema-root definition lists; a
/// schema-root definition present on one side only is breaking.
pub open spec fn schema_definition_list_reports(
    left: Seq<SchemaDefinition>,
    right: Seq<SchemaDefinition>,
) -> Seq<ReportEntryView> {
    correlate_reports(
        left,
        right,
        Seq::empty().push(segment_view(DiffLocationSegmentType::SchemaDefinition, None)),
        const_classifier(ChangeType::Breaking),
        schema_definition_compare_fn(),
    )
}

/// Compares a matched pair of schema-root definitions.
pub fn compare_schema_definitions(l: &SchemaDefinition, r: &SchemaDefinition) -> (out: Vec<
    ReportEntry,
>)
    ensures
        entries(out@) == schema_definition_reports(*l, *r),
{
    let mut out: Vec<ReportEntry> = Vec::new();
    let loc = DiffLocation::new(
        DiffLocationSegmentType::SchemaDefinition,
        Some(r.name()),
    );

    let ext_loc = loc.push(DiffLocationSegmentType::Extends, None);
    let mut part = compare_bools(&ext_loc, l.extend, r.extend, ChangeType::NonBreaking);
    let ghost out0 = out@;
    let ghost part1 = part@;
    out.append(&mut part);
    proof {
        lemma_entries_add(out0, part1);
    }

    let mut part = correlate_directives(&loc, &l.directives, &r.directives);
    let ghost out1 = out@;
    let ghost part2 = part@;
    out.append(&mut part);
    proof {
        lemma_entries_add(out1, part2);
    }

    let query_loc = loc.push(DiffLocationSegmentType::Query, None);
    let mut part = compare_optional_strings(
        &query_loc,
        ChangeType::Breaking,
        ChangeType::NonBreaking,
        ChangeType::Breaking,
        true,
        &l.query,
        &r.query,
    );
    let ghost out2 = out@;
    let ghost part3 = part@;
    out.append(&mut part);
    proof {
        lemma_entries_add(out2, part3);
    }

    let mutation_loc = loc.push(DiffLocationSegmentType::Mutation, None);
    let mut part = compare_optional_strings(
        &mutation_loc,
        ChangeType::Breaking,
        ChangeType::NonBreaking,
        ChangeType::Breaking,
        true,
        &l.mutation,
        &r.mutation,
    );
    let ghost out3 = out@;
    let ghost part4 = part@;
    out.append(&mut part);
    proof {
        lemma_entries_add(out3, part4);
    }

    let subscription_loc = loc.push(DiffLocationSegmentType::Subscription, None);
    let mut part = compare_optional_strings(
        &subscription_loc,
        ChangeType::Breaking,
        ChangeType::NonBreaking,
        ChangeType::Breaking,
        true,
        &l.subscription,
        &r.subscription,
    );
    let ghost out4 = out@;
    let ghost part5 = part@;
    out.append(&mut part);
    proof {
        lemma_entries_add(out4, part5);
    }

    out
}

/// Correlates the two documents' schema-root definition lists; both sides
/// carry the same sentinel name, so the lists pair up positionally at most
/// once.
pub fn correlate_schema_definitions(
    left: &Vec<SchemaDefinition>,
    right: &Vec<SchemaDefinition>,
) -> (out: Vec<ReportEntry>)
    ensures
        entries(out@) == schema_definition_list_reports(left@, right@),
{
    let loc = DiffLocation::new(DiffLocationSegmentType::SchemaDefinition, None);
    let mut out: Vec<ReportEntry> = Vec::new();
    let mut i: usize = 0;
    while i < right.len()
        invariant
            i <= right@.len(),
            loc@ == Seq::empty().push(
                segment_view(DiffLocationSegmentType::SchemaDefinition, None),
            ),
            entries(out@) == correlate_add_upto(
                left@,
                right@,
                loc@,
                const_classifier(ChangeType::Breaking),
                schema_definition_compare_fn(),
                i as int,
            ),
        decreases right@.len() - i,
    {
        let r = &right[i];
        let r_name = r.name();
        let ghost out_before = out@;
        match find_by_name(left, &r_name) {
            Some(j) => {
                proof {
                    lemma_find_named_properties(left@, r_name@);
                }
                let mut sub = compare_schema_definitions(&left[j], r);
                let ghost sub_view = sub@;
                out.append(&mut sub);
                proof {
                    lemma_entries_add(out_before, sub_view);
                }
            }
            None => {
                out.push(
                    ReportEntry {
                        location: loc.duplicate(),
                        kind: ReportKind::ItemAdded { name: r_name },
                        change_type: ChangeType::Breaking,
                    },
                );
                proof {
                    lemma_entries_push(out_before, out@[out@.len() - 1]);
                }
            }
        }
        i = i + 1;
    }
    let mut i: usize = 0;
    while i < left.len()
        invariant
            i <= left@.len(),
            loc@ == Seq::empty().push(
                segment_view(DiffLocationSegmentType::SchemaDefinition, None),
            ),
            entries(out@) == correlate_add_upto(
                left@,
                right@,
                loc@,
                const_classifier(ChangeType::Breaking),
                schema_definition_compare_fn(),
                right@.len() as int,
            ) + correlate_removed_upto(left@, right@, loc@, i as int),
        decreases left@.len() - i,
    {
        let l = &left[i];
        let l_name = l.name();
        let ghost out_before = out@;
        match find_by_name(right, &l_name) {
            Some(j) => {
                proof {
                    assert(entries(out@) =~= entries(out_before) + Seq::<
                        ReportEntryView,
                    >::empty());
                }
            }
            None => {
                out.push(
                    ReportEntry {
                        location: loc.duplicate(),
                        kind: ReportKind::ItemRemoved { name: l_name },
                        change_type: ChangeType::Breaking,
                    },
                );
                proof {
                    lemma_entries_push(out_before, out@[out@.len() - 1]);
                }
            }
        }
        i = i + 1;
    }
    out
}

// ---------------------------------------------------------------------------
// Directive definitions
// ---------------------------------------------------------------------------

/// Reports for a matched pair of directive definitions: description,
/// arguments, then the `isRepeatable` flag, whose loss is breaking.
pub open spec fn directive_definition_reports(
    l: DirectiveDefinition,
    r: DirectiveDefinition,
) -> Seq<ReportEntryView> {
    let loc = Seq::empty().push(
        segment_view(DiffLocationSegmentType::DirectiveDefinition, Some(r.name@)),
    );
    description_reports(loc, view_opt_string(l.description), view_opt_string(r.description))
        + input_value_list_reports(
        loc,
        DiffLocationSegmentType::InputArgument,
        l.arguments@,
        r.arguments@,
    ) + bool_reports(
        loc.push(segment_view(DiffLocationSegmentType::IsRepeatable, None)),
        l.is_repeatable,
        r.is_repeatable,
        if r.is_repeatable {
            ChangeType::NonBreaking
        } else {
            ChangeType::Breaking
        },
    )
}

/// The matched-pair comparator the directive-definition correlation uses.
pub open spec fn directive_definition_compare_fn() -> spec_fn(
    DirectiveDefinition,
    DirectiveDefinition,
) -> Seq<ReportEntryView> {
    |l: DirectiveDefinition, r: DirectiveDefinition| directive_definition_reports(l, r)
}

/// Reports for the two documents' directive-definition lists; a new
/// directive definition is non-breaking.
pub open spec fn directive_definition_list_reports(
    left: Seq<DirectiveDefinition>,
    right: Seq<DirectiveDefinition>,
) -> Seq<ReportEntryView> {
    correlate_reports(
        left,
        right,
        Seq::empty().push(segment_view(DiffLocationSegmentType::DirectiveDefinition, None)),
        const_classifier(ChangeType::NonBreaking),
        directive_definition_compare_fn(),
    )
}

/// Compares a matched pair of directive definitions.
pub fn compare_directive_definitions(
    l: &DirectiveDefinition,
    r: &DirectiveDefinition,
) -> (out: Vec<ReportEntry>)
    requires
        l.spec_name() == r.spec_name(),
    ensures
        entries(out@) == directive_definition_reports(*l, *r),
{
    let mut out: Vec<ReportEntry> = Vec::new();
    let loc = DiffLocation::new(
        DiffLocationSegmentType::DirectiveDefinition,
        Some(r.name.clone()),
    );

    let desc_loc = loc.push(DiffLocationSegmentType::Description, None);
    let mut part = compare_optional_strings(
        &desc_loc,
        ChangeType::NonBreaking,
        ChangeType::NonBreaking,
        ChangeType::NonBreaking,
        false,
        &l.description,
        &r.description,
    );
    let ghost out0 = out@;
    let ghost part1 = part@;
    out.append(&mut part);
    proof {
        lemma_entries_add(out0, part1);
    }

    let mut part = correlate_input_values(
        &loc,
        DiffLocationSegmentType::InputArgument,
        &l.arguments,
        &r.arguments,
    );
    let ghost out1 = out@;
    let ghost part2 = part@;
    out.append(&mut part);
    proof {
        lemma_entries_add(out1, part2);
    }

    let repeatable_change = if r.is_repeatable {
        ChangeType::NonBreaking
    } else {
        ChangeType::Breaking
    };
    let rep_loc = loc.push(DiffLocationSegmentType::IsRepeatable, None);
    let mut part = compare_bools(&rep_loc, l.is_repeatable, r.is_repeatable, repeatable_change);
    let ghost out2 = out@;
    let ghost part3 = part@;
    out.append(&mut part);
    proof {
        lemma_entries_add(out2, part3);
    }

    out
}

/// Correlates the two documents' directive-definition lists by name.
pub fn correlate_directive_definitions(
    left: &Vec<DirectiveDefinition>,
    right: &Vec<DirectiveDefinition>,
) -> (out: Vec<ReportEntry>)
    ensures
        entries(out@) == directive_definition_list_reports(left@, right@),
{
    let loc = DiffLocation::new(DiffLocationSegmentType::DirectiveDefinition, None);
    let mut out: Vec<ReportEntry> = Vec::new();
    let mut i: usize = 0;
    while i < right.len()
        invariant
            i <= right@.len(),
            loc@ == Seq::empty().push(
                segment_view(DiffLocationSegmentType::DirectiveDefinition, None),
            ),
            entries(out@) == correlate_add_upto(
                left@,
                right@,
                loc@,
                const_classifier(ChangeType::NonBreaking),
                directive_definition_compare_fn(),
                i as int,
            ),
        decreases right@.len() - i,
    {
        let r = &right[i];
        let ghost out_before = out@;
        match find_by_name(left, &r.name) {
            Some(j) => {
                proof {
                    lemma_find_named_properties(left@, r.name@);
                }
                let mut sub = compare_directive_definitions(&left[j], r);
                let ghost sub_view = sub@;
                out.append(&mut sub);
                proof {
                    lemma_entries_add(out_before, sub_view);
                }
            }
            None => {
                out.push(
                    ReportEntry {
                        location: loc.duplicate(),
                        kind: ReportKind::ItemAdded { name: r.name.clone() },
                        change_type: ChangeType::NonBreaking,
                    },
                );
                proof {
                    lemma_entries_push(out_before, out@[out@.len() - 1]);
                }
            }
        }
        i = i + 1;
    }
    let mut i: usize = 0;
    while i < left.len()
        invariant
            i <= left@.len(),
            loc@ == Seq::empty().push(
                segment_view(DiffLocationSegmentType::DirectiveDefinition, None),
            ),
            entries(out@) == correlate_add_upto(
                left@,
                right@,
                loc@,
                const_classifier(ChangeType::NonBreaking),
                directive_definition_compare_fn(),
                right@.len() as int,
            ) + correlate_removed_upto(left@, right@, loc@, i as int),
        decreases left@.len() - i,
    {
        let l = &left[i];
        let ghost out_before = out@;
        match find_by_name(right, &l.name) {
            Some(j) => {
                proof {
                    assert(entries(out@) =~= entries(out_before) + Seq::<
                        ReportEntryView,
                    >::empty());
                }
            }
            None => {
                out.push(
                    ReportEntry {
                        location: loc.duplicate(),
                        kind: ReportKind::ItemRemoved { name: l.name.clone() },
                        change_type: ChangeType::Breaking,
                    },
                );
                proof {
                    lemma_entries_push(out_before, out@[out@.len() - 1]);
                }
            }
        }
        i = i + 1;
    }
    out
}

// ---------------------------------------------------------------------------
// The whole diff
// ---------------------------------------------------------------------------

/// Everything a full comparison of two documents emits: all top-level
/// directive-definition differences, then the schema-root definition
/// differences, then type-definition differences, in traversal order.
pub open spec fn schema_diff_reports(left: ServiceDocument, right: ServiceDocument) -> Seq<
    ReportEntryView,
> {
    directive_definition_list_reports(left.directive_definitions@, right.directive_definitions@)
        + schema_definition_list_reports(left.schema_definitions@, right.schema_definitions@)
        + type_definition_list_reports(left.type_definitions@, right.type_definitions@)
}

/// Computes every structural difference between the two documents, in
/// traversal order, each classified as breaking, non-breaking, or unknown.
pub fn diff_schema(left: &ServiceDocument, right: &ServiceDocument) -> (out: Vec<ReportEntry>)
    ensures
        entries(out@) == schema_diff_reports(*left, *right),
{
    let mut out = correlate_directive_definitions(
        &left.directive_definitions,
        &right.directive_definitions,
    );

    let mut part = correlate_schema_definitions(
        &left.schema_definitions,
        &right.schema_definitions,
    );
    let ghost out0 = out@;
    let ghost part1 = part@;
    out.append(&mut part);
    proof {
        lemma_entries_add(out0, part1);
    }

    let mut part = correlate_type_definitions(&left.type_definitions, &right.type_definitions);
    let ghost out1 = out@;
    let ghost part2 = part@;
    out.append(&mut part);
    proof {
        lemma_entries_add(out1, part2);
    }

    out
}

} // verus!
