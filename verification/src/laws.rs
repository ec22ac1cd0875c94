//! Proved properties of the diff engine.
//!
//! Each public proof function here states one law over the abstract report
//! sequences that the executable functions' contracts are written in, so
//! the laws carry directly to the executable engine.

use vstd::prelude::*;

use crate::correlate::{
    lemma_correlate_identity, lemma_correlate_one_changed, lemma_correlate_one_inserted,
    names_unique,
};
use crate::diff_location::{
    segment_view, view_opt_string, DiffLocationSegmentType, DiffLocationSegmentView,
};
use crate::document::{
    BaseTypeRef, ConstDirective, DirectiveDefinition, EnumValueDefinition, FieldDefinition,
    InputValueDefinition, SchemaDefinition, ServiceDocument, TypeDefinition, TypeKind, TypeRef,
};
use crate::named::Named;
use crate::report::{added_entry, removed_entry, ChangeType, ReportEntryView, ReportKindView};
use crate::schema_diff::{
    added_input_value_change, const_classifier, const_directive_compare_fn,
    const_directive_reports, directive_argument_compare_fn, directive_argument_reports,
    directive_definition_compare_fn, directive_definition_reports,
    directive_definition_list_reports, directive_list_reports, enum_value_compare_fn,
    enum_value_list_reports, enum_value_reports, field_compare_fn, field_list_reports,
    field_reports, input_value_classifier, input_value_compare_fn, input_value_list_reports,
    input_value_reports, interface_type_reports, name_compare_fn, name_list_reports,
    object_type_reports, schema_definition_compare_fn, schema_definition_list_reports,
    schema_definition_reports, schema_diff_reports, type_definition_compare_fn,
    type_definition_list_reports, type_definition_loc, type_definition_reports,
    type_kind_reports,
};
use crate::type_compare::type_ref_diff;
use crate::value_compare::optional_string_reports;
use crate::wf::{
    const_directive_wf, directive_definition_wf, directive_list_wf, document_wf, enum_value_wf,
    enum_value_list_wf, field_list_wf, field_wf, input_value_list_wf, input_value_wf,
    schema_definition_wf, type_definition_wf, type_kind_wf,
};

verus! {

/// A type reference is structurally identical to itself.
pub proof fn lemma_type_ref_identity(t: TypeRef)
    ensures
        type_ref_diff(t, t) is None,
    decreases t,
{
    match t.base {
        BaseTypeRef::Named(n) => {}
        BaseTypeRef::List(inner) => {
            lemma_type_ref_identity(*inner);
        }
    }
}

/// Comparing an optional text to itself emits nothing.
pub proof fn lemma_optional_string_identity(
    loc: Seq<DiffLocationSegmentView>,
    change_type_if_different: ChangeType,
    change_type_if_added: ChangeType,
    change_type_if_removed: ChangeType,
    print_string: bool,
    o: Option<Seq<char>>,
)
    ensures
        optional_string_reports(
            loc,
            change_type_if_different,
            change_type_if_added,
            change_type_if_removed,
            print_string,
            o,
            o,
        ) == Seq::<ReportEntryView>::empty(),
{
    match o {
        Some(s) => {}
        None => {}
    }
}

proof fn lemma_const_directive_identity(loc: Seq<DiffLocationSegmentView>, d: ConstDirective)
    requires
        const_directive_wf(d),
    ensures
        const_directive_reports(loc, d, d) == Seq::<ReportEntryView>::empty(),
{
    let args = d.arguments@;
    let compare = directive_argument_compare_fn(loc);
    assert forall|j: int| 0 <= j < args.len() implies (#[trigger] compare(args[j], args[j]))
        == Seq::<ReportEntryView>::empty() by {
        let a = args[j];
        let arg_loc = loc.push(
            segment_view(DiffLocationSegmentType::DirectiveArgument, Some(a.spec_name())),
        );
        assert(directive_argument_reports(arg_loc, a, a) == Seq::<ReportEntryView>::empty());
    };
    lemma_correlate_identity(
        args,
        loc.push(segment_view(DiffLocationSegmentType::DirectiveArgument, None)),
        const_classifier(ChangeType::Unknown),
        compare,
    );
}

proof fn lemma_directive_list_identity(
    outer: Seq<DiffLocationSegmentView>,
    ds: Seq<ConstDirective>,
)
    requires
        directive_list_wf(ds),
    ensures
        directive_list_reports(outer, ds, ds) == Seq::<ReportEntryView>::empty(),
{
    let compare = const_directive_compare_fn(outer);
    assert forall|j: int| 0 <= j < ds.len() implies (#[trigger] compare(ds[j], ds[j])) == Seq::<
        ReportEntryView,
    >::empty() by {
        lemma_const_directive_identity(
            outer.push(segment_view(DiffLocationSegmentType::Directive, Some(ds[j].spec_name()))),
            ds[j],
        );
    };
    lemma_correlate_identity(
        ds,
        outer.push(segment_view(DiffLocationSegmentType::Directive, None)),
        const_classifier(ChangeType::Unknown),
        compare,
    );
}

proof fn lemma_input_value_identity(loc: Seq<DiffLocationSegmentView>, iv: InputValueDefinition)
    requires
        input_value_wf(iv),
    ensures
        input_value_reports(loc, iv, iv) == Seq::<ReportEntryView>::empty(),
{
    lemma_type_ref_identity(iv.ty);
    lemma_optional_string_identity(
        loc.push(segment_view(DiffLocationSegmentType::DefaultValue, None)),
        ChangeType::Breaking,
        ChangeType::NonBreaking,
        ChangeType::Breaking,
        true,
        view_opt_string(iv.default_value),
    );
    lemma_optional_string_identity(
        loc.push(segment_view(DiffLocationSegmentType::Description, None)),
        ChangeType::NonBreaking,
        ChangeType::NonBreaking,
        ChangeType::NonBreaking,
        false,
        view_opt_string(iv.description),
    );
    lemma_directive_list_identity(loc, iv.directives@);
    assert(input_value_reports(loc, iv, iv) =~= Seq::<ReportEntryView>::empty());
}

proof fn lemma_input_value_list_identity(
    outer: Seq<DiffLocationSegmentView>,
    seg: DiffLocationSegmentType,
    s: Seq<InputValueDefinition>,
)
    requires
        input_value_list_wf(s),
    ensures
        input_value_list_reports(outer, seg, s, s) == Seq::<ReportEntryView>::empty(),
{
    let compare = input_value_compare_fn(outer, seg);
    assert forall|j: int| 0 <= j < s.len() implies (#[trigger] compare(s[j], s[j])) == Seq::<
        ReportEntryView,
    >::empty() by {
        lemma_input_value_identity(
            outer.push(segment_view(seg, Some(s[j].spec_name()))),
            s[j],
        );
    };
    lemma_correlate_identity(
        s,
        outer.push(segment_view(seg, None)),
        input_value_classifier(),
        compare,
    );
}

proof fn lemma_field_identity(loc: Seq<DiffLocationSegmentView>, f: FieldDefinition)
    requires
        field_wf(f),
    ensures
        field_reports(loc, f, f) == Seq::<ReportEntryView>::empty(),
{
    lemma_type_ref_identity(f.ty);
    lemma_optional_string_identity(
        loc.push(segment_view(DiffLocationSegmentType::Description, None)),
        ChangeType::NonBreaking,
        ChangeType::NonBreaking,
        ChangeType::NonBreaking,
        false,
        view_opt_string(f.description),
    );
    lemma_input_value_list_identity(loc, DiffLocationSegmentType::InputArgument, f.arguments@);
    lemma_directive_list_identity(loc, f.directives@);
    assert(field_reports(loc, f, f) =~= Seq::<ReportEntryView>::empty());
}

proof fn lemma_field_list_identity(
    outer: Seq<DiffLocationSegmentView>,
    use_left_name: bool,
    s: Seq<FieldDefinition>,
)
    requires
        field_list_wf(s),
    ensures
        field_list_reports(outer, use_left_name, s, s) == Seq::<ReportEntryView>::empty(),
{
    let compare = field_compare_fn(outer, use_left_name);
    assert forall|j: int| 0 <= j < s.len() implies (#[trigger] compare(s[j], s[j])) == Seq::<
        ReportEntryView,
    >::empty() by {
        lemma_field_identity(
            outer.push(segment_view(DiffLocationSegmentType::Field, Some(s[j].spec_name()))),
            s[j],
        );
    };
    lemma_correlate_identity(
        s,
        outer.push(segment_view(DiffLocationSegmentType::Field, None)),
        const_classifier(ChangeType::NonBreaking),
        compare,
    );
}

proof fn lemma_name_list_identity(
    outer: Seq<DiffLocationSegmentView>,
    seg: DiffLocationSegmentType,
    change_type_if_added: ChangeType,
    names: Seq<String>,
)
    requires
        names_unique(names),
    ensures
        name_list_reports(outer, seg, change_type_if_added, names, names) == Seq::<
            ReportEntryView,
        >::empty(),
{
    let compare = name_compare_fn();
    assert forall|j: int| 0 <= j < names.len() implies (#[trigger] compare(names[j], names[j]))
        == Seq::<ReportEntryView>::empty() by {};
    lemma_correlate_identity(
        names,
        outer.push(segment_view(seg, None)),
        const_classifier(change_type_if_added),
        compare,
    );
}

proof fn lemma_enum_value_identity(loc: Seq<DiffLocationSegmentView>, v: EnumValueDefinition)
    requires
        enum_value_wf(v),
    ensures
        enum_value_reports(loc, v, v) == Seq::<ReportEntryView>::empty(),
{
    lemma_optional_string_identity(
        loc.push(segment_view(DiffLocationSegmentType::Description, None)),
        ChangeType::NonBreaking,
        ChangeType::NonBreaking,
        ChangeType::NonBreaking,
        false,
        view_opt_string(v.description),
    );
    lemma_directive_list_identity(loc, v.directives@);
    assert(enum_value_reports(loc, v, v) =~= Seq::<ReportEntryView>::empty());
}

proof fn lemma_enum_value_list_identity(
    outer: Seq<DiffLocationSegmentView>,
    s: Seq<EnumValueDefinition>,
)
    requires
        enum_value_list_wf(s),
    ensures
        enum_value_list_reports(outer, s, s) == Seq::<ReportEntryView>::empty(),
{
    let compare = enum_value_compare_fn(outer);
    assert forall|j: int| 0 <= j < s.len() implies (#[trigger] compare(s[j], s[j])) == Seq::<
        ReportEntryView,
    >::empty() by {
        lemma_enum_value_identity(
            outer.push(
                segment_view(DiffLocationSegmentType::EnumValueDefinition, Some(s[j].spec_name())),
            ),
            s[j],
        );
    };
    lemma_correlate_identity(
        s,
        outer.push(segment_view(DiffLocationSegmentType::EnumValueDefinition, None)),
        const_classifier(ChangeType::NonBreaking),
        compare,
    );
}

proof fn lemma_type_kind_identity(t: TypeDefinition)
    requires
        type_kind_wf(t.kind),
    ensures
        type_kind_reports(t, t) == Seq::<ReportEntryView>::empty(),
{
    let loc = type_definition_loc(t, t);
    match t.kind {
        TypeKind::Scalar => {}
        TypeKind::Object(o) => {
            lemma_name_list_identity(
                loc,
                DiffLocationSegmentType::Implements,
                ChangeType::NonBreaking,
                o.implements@,
            );
            lemma_field_list_identity(loc, true, o.fields@);
            assert(object_type_reports(loc, o, o) =~= Seq::<ReportEntryView>::empty());
        }
        TypeKind::Interface(i) => {
            lemma_name_list_identity(
                loc,
                DiffLocationSegmentType::Implements,
                ChangeType::NonBreaking,
                i.implements@,
            );
            lemma_field_list_identity(loc, false, i.fields@);
            assert(interface_type_reports(loc, i, i) =~= Seq::<ReportEntryView>::empty());
        }
        TypeKind::Union(u) => {
            lemma_name_list_identity(
                loc,
                DiffLocationSegmentType::UnionMemberDefinition,
                ChangeType::Breaking,
                u.members@,
            );
        }
        TypeKind::Enum(e) => {
            lemma_enum_value_list_identity(loc, e.values@);
        }
        TypeKind::InputObject(io) => {
            lemma_input_value_list_identity(loc, DiffLocationSegmentType::Field, io.fields@);
        }
    }
}

proof fn lemma_type_definition_identity(t: TypeDefinition)
    requires
        type_definition_wf(t),
    ensures
        type_definition_reports(t, t) == Seq::<ReportEntryView>::empty(),
{
    let loc = type_definition_loc(t, t);
    lemma_type_kind_identity(t);
    lemma_optional_string_identity(
        loc.push(segment_view(DiffLocationSegmentType::Description, None)),
        ChangeType::NonBreaking,
        ChangeType::NonBreaking,
        ChangeType::NonBreaking,
        false,
        view_opt_string(t.description),
    );
    lemma_directive_list_identity(loc, t.directives@);
    assert(type_definition_reports(t, t) =~= Seq::<ReportEntryView>::empty());
}

proof fn lemma_type_definition_list_identity(s: Seq<TypeDefinition>)
    requires
        names_unique(s),
        forall|i: int| 0 <= i < s.len() ==> type_definition_wf(#[trigger] s[i]),
    ensures
        type_definition_list_reports(s, s) == Seq::<ReportEntryView>::empty(),
{
    let compare = type_definition_compare_fn();
    assert forall|j: int| 0 <= j < s.len() implies (#[trigger] compare(s[j], s[j])) == Seq::<
        ReportEntryView,
    >::empty() by {
        lemma_type_definition_identity(s[j]);
    };
    lemma_correlate_identity(
        s,
        Seq::empty().push(segment_view(DiffLocationSegmentType::TypeDefinition, None)),
        const_classifier(ChangeType::NonBreaking),
        compare,
    );
}

proof fn lemma_schema_definition_identity(s: SchemaDefinition)
    requires
        schema_definition_wf(s),
    ensures
        schema_definition_reports(s, s) == Seq::<ReportEntryView>::empty(),
{
    let loc = Seq::empty().push(
        segment_view(DiffLocationSegmentType::SchemaDefinition, Some("schema"@)),
    );
    lemma_directive_list_identity(loc, s.directives@);
    lemma_optional_string_identity(
        loc.push(segment_view(DiffLocationSegmentType::Query, None)),
        ChangeType::Breaking,
        ChangeType::NonBreaking,
        ChangeType::Breaking,
        true,
        view_opt_string(s.query),
    );
    lemma_optional_string_identity(
        loc.push(segment_view(DiffLocationSegmentType::Mutation, None)),
        ChangeType::Breaking,
        ChangeType::NonBreaking,
        ChangeType::Breaking,
        true,
        view_opt_string(s.mutation),
    );
    lemma_optional_string_identity(
        loc.push(segment_view(DiffLocationSegmentType::Subscription, None)),
        ChangeType::Breaking,
        ChangeType::NonBreaking,
        ChangeType::Breaking,
        true,
        view_opt_string(s.subscription),
    );
    assert(schema_definition_reports(s, s) =~= Seq::<ReportEntryView>::empty());
}

proof fn lemma_schema_definition_list_identity(s: Seq<SchemaDefinition>)
    requires
        s.len() <= 1,
        forall|i: int| 0 <= i < s.len() ==> schema_definition_wf(#[trigger] s[i]),
    ensures
        schema_definition_list_reports(s, s) == Seq::<ReportEntryView>::empty(),
{
    assert(names_unique(s));
    let compare = schema_definition_compare_fn();
    assert forall|j: int| 0 <= j < s.len() implies (#[trigger] compare(s[j], s[j])) == Seq::<
        ReportEntryView,
    >::empty() by {
        lemma_schema_definition_identity(s[j]);
    };
    lemma_correlate_identity(
        s,
        Seq::empty().push(segment_view(DiffLocationSegmentType::SchemaDefinition, None)),
        const_classifier(ChangeType::Breaking),
        compare,
    );
}

proof fn lemma_directive_definition_identity(d: DirectiveDefinition)
    requires
        directive_definition_wf(d),
    ensures
        directive_definition_reports(d, d) == Seq::<ReportEntryView>::empty(),
{
    let loc = Seq::empty().push(
        segment_view(DiffLocationSegmentType::DirectiveDefinition, Some(d.name@)),
    );
    lemma_optional_string_identity(
        loc.push(segment_view(DiffLocationSegmentType::Description, None)),
        ChangeType::NonBreaking,
        ChangeType::NonBreaking,
        ChangeType::NonBreaking,
        false,
        view_opt_string(d.description),
    );
    lemma_input_value_list_identity(loc, DiffLocationSegmentType::InputArgument, d.arguments@);
    assert(directive_definition_reports(d, d) =~= Seq::<ReportEntryView>::empty());
}

proof fn lemma_directive_definition_list_identity(s: Seq<DirectiveDefinition>)
    requires
        names_unique(s),
        forall|i: int| 0 <= i < s.len() ==> directive_definition_wf(#[trigger] s[i]),
    ensures
        directive_definition_list_reports(s, s) == Seq::<ReportEntryView>::empty(),
{
    let compare = directive_definition_compare_fn();
    assert forall|j: int| 0 <= j < s.len() implies (#[trigger] compare(s[j], s[j])) == Seq::<
        ReportEntryView,
    >::empty() by {
        lemma_directive_definition_identity(s[j]);
    };
    lemma_correlate_identity(
        s,
        Seq::empty().push(segment_view(DiffLocationSegmentType::DirectiveDefinition, None)),
        const_classifier(ChangeType::NonBreaking),
        compare,
    );
}

/// Diffing a valid document against itself produces no report entries.
pub proof fn lemma_diff_identity(doc: ServiceDocument)
    requires
        document_wf(doc),
    ensures
        schema_diff_reports(doc, doc) == Seq::<ReportEntryView>::empty(),
{
    lemma_directive_definition_list_identity(doc.directive_definitions@);
    lemma_schema_definition_list_identity(doc.schema_definitions@);
    lemma_type_definition_list_identity(doc.type_definitions@);
    assert(schema_diff_reports(doc, doc) =~= Seq::<ReportEntryView>::empty());
}

/// Swapping left and right on a pair of field lists that differ only by one
/// field, inserted at any position, turns the single non-breaking addition
/// report into a single removal report, and the removal is classified
/// breaking regardless of direction.
pub proof fn lemma_field_addition_reports(
    outer: Seq<DiffLocationSegmentView>,
    use_left_name: bool,
    fields: Seq<FieldDefinition>,
    p: int,
    f: FieldDefinition,
)
    requires
        0 <= p <= fields.len(),
        field_list_wf(fields.insert(p, f)),
    ensures
        field_list_reports(outer, use_left_name, fields, fields.insert(p, f)) == seq![
            added_entry(
                outer.push(segment_view(DiffLocationSegmentType::Field, None)),
                f.spec_name(),
                ChangeType::NonBreaking,
            ),
        ],
        field_list_reports(outer, use_left_name, fields.insert(p, f), fields) == seq![
            removed_entry(
                outer.push(segment_view(DiffLocationSegmentType::Field, None)),
                f.spec_name(),
            ),
        ],
{
    fields.insert_ensures(p, f);
    let compare = field_compare_fn(outer, use_left_name);
    let classify = const_classifier::<FieldDefinition>(ChangeType::NonBreaking);
    let ext = fields.insert(p, f);
    assert forall|j: int| 0 <= j < fields.len() implies (#[trigger] compare(
        fields[j],
        fields[j],
    )) == Seq::<ReportEntryView>::empty() by {
        let pj: int = if j < p {
            j
        } else {
            j + 1
        };
        assert(ext[pj] == fields[j]);
        assert(field_wf(fields[j]));
        lemma_field_identity(
            outer.push(
                segment_view(DiffLocationSegmentType::Field, Some(fields[j].spec_name())),
            ),
            fields[j],
        );
    };
    lemma_correlate_one_inserted(
        fields,
        f,
        p,
        outer.push(segment_view(DiffLocationSegmentType::Field, None)),
        classify,
        compare,
    );
    assert(classify(f) == ChangeType::NonBreaking);
}

/// How an added argument or input-object field is classified: with a
/// default value it is non-breaking regardless of nullability; without one
/// it is non-breaking exactly when nullable, breaking otherwise.
pub proof fn lemma_added_input_value_classification(iv: InputValueDefinition)
    ensures
        iv.default_value is Some ==> added_input_value_change(iv) == ChangeType::NonBreaking,
        iv.default_value is None && iv.ty.nullable ==> added_input_value_change(iv)
            == ChangeType::NonBreaking,
        iv.default_value is None && !iv.ty.nullable ==> added_input_value_change(iv)
            == ChangeType::Breaking,
{
}

/// An input value present only on the right, at any position, yields
/// exactly one addition report carrying its classification; swapping the
/// sides yields exactly one removal report, classified breaking.
pub proof fn lemma_input_value_addition_reports(
    outer: Seq<DiffLocationSegmentView>,
    seg: DiffLocationSegmentType,
    values: Seq<InputValueDefinition>,
    p: int,
    iv: InputValueDefinition,
)
    requires
        0 <= p <= values.len(),
        input_value_list_wf(values.insert(p, iv)),
    ensures
        input_value_list_reports(outer, seg, values, values.insert(p, iv)) == seq![
            added_entry(
                outer.push(segment_view(seg, None)),
                iv.spec_name(),
                added_input_value_change(iv),
            ),
        ],
        input_value_list_reports(outer, seg, values.insert(p, iv), values) == seq![
            removed_entry(outer.push(segment_view(seg, None)), iv.spec_name()),
        ],
{
    values.insert_ensures(p, iv);
    let compare = input_value_compare_fn(outer, seg);
    let classify = input_value_classifier();
    let ext = values.insert(p, iv);
    assert forall|j: int| 0 <= j < values.len() implies (#[trigger] compare(
        values[j],
        values[j],
    )) == Seq::<ReportEntryView>::empty() by {
        let pj: int = if j < p {
            j
        } else {
            j + 1
        };
        assert(ext[pj] == values[j]);
        assert(input_value_wf(values[j]));
        lemma_input_value_identity(
            outer.push(segment_view(seg, Some(values[j].spec_name()))),
            values[j],
        );
    };
    lemma_correlate_one_inserted(
        values,
        iv,
        p,
        outer.push(segment_view(seg, None)),
        classify,
        compare,
    );
    assert(classify(iv) == added_input_value_change(iv));
}

/// A list-versus-non-list mismatch at a nesting level is always breaking,
/// whatever the named identities and nullability flags are.
pub proof fn lemma_list_shape_mismatch_breaking(l: TypeRef, r: TypeRef)
    requires
        (l.base is Named && r.base is List) || (l.base is List && r.base is Named),
    ensures
        type_ref_diff(l, r) == Some(ChangeType::Breaking),
{
}

/// For references to the same named type, tightening nullability (nullable
/// on the left, non-null on the right) is breaking; relaxing it is
/// non-breaking; agreement is no difference at all.
pub proof fn lemma_nullability_change(l: TypeRef, r: TypeRef)
    requires
        l.base matches BaseTypeRef::Named(ln) && r.base matches BaseTypeRef::Named(rn) && ln@
            == rn@,
    ensures
        l.nullable == r.nullable ==> type_ref_diff(l, r) is None,
        l.nullable && !r.nullable ==> type_ref_diff(l, r) == Some(ChangeType::Breaking),
        !l.nullable && r.nullable ==> type_ref_diff(l, r) == Some(ChangeType::NonBreaking),
{
}

/// The nullability flag at nesting level `k` of a type reference; level 0
/// is the outermost level.
pub open spec fn flag_at_level(t: TypeRef, k: nat) -> bool
    decreases k,
{
    if k == 0 {
        t.nullable
    } else {
        match t.base {
            BaseTypeRef::List(inner) => flag_at_level(*inner, (k - 1) as nat),
            BaseTypeRef::Named(n) => t.nullable,
        }
    }
}

/// The two references are identical except at nesting level `k`, where the
/// nullability flags differ: both sides are lists at every level above `k`,
/// with equal flags there, and agree on everything below `k`.
pub open spec fn differs_only_in_level_flag(l: TypeRef, r: TypeRef, k: nat) -> bool
    decreases k,
{
    if k == 0 {
        l.base == r.base && l.nullable != r.nullable
    } else {
        &&& l.nullable == r.nullable
        &&& l.base matches BaseTypeRef::List(li) && r.base matches BaseTypeRef::List(ri)
            && differs_only_in_level_flag(*li, *ri, (k - 1) as nat)
    }
}

/// A nullability difference at any nesting level — named or list — is
/// breaking when that level's left flag was nullable (the constraint was
/// tightened) and non-breaking otherwise.
pub proof fn lemma_nullability_change_at_level(l: TypeRef, r: TypeRef, k: nat)
    requires
        differs_only_in_level_flag(l, r, k),
    ensures
        flag_at_level(l, k) && !flag_at_level(r, k) ==> type_ref_diff(l, r) == Some(
            ChangeType::Breaking,
        ),
        !flag_at_level(l, k) && flag_at_level(r, k) ==> type_ref_diff(l, r) == Some(
            ChangeType::NonBreaking,
        ),
    decreases k,
{
    if k == 0 {
        match l.base {
            BaseTypeRef::Named(n) => {}
            BaseTypeRef::List(inner) => {
                lemma_type_ref_identity(*inner);
            }
        }
    } else {
        let li = l.base->List_0;
        let ri = r.base->List_0;
        lemma_nullability_change_at_level(*li, *ri, (k - 1) as nat);
    }
}

/// The location under which a matched pair of field-holding type
/// definitions reports field additions and removals.
pub open spec fn fields_loc(lt: TypeDefinition, rt: TypeDefinition) -> Seq<
    DiffLocationSegmentView,
> {
    type_definition_loc(lt, rt).push(segment_view(DiffLocationSegmentType::Field, None))
}

/// A matched pair of field-holding type definitions — object or interface —
/// that agree on everything except one field, inserted at any position on
/// the right, compares to exactly one non-breaking addition; swapped, to
/// exactly one breaking removal at the same location.
proof fn lemma_type_definition_one_field(
    lt: TypeDefinition,
    rt: TypeDefinition,
    p: int,
    f: FieldDefinition,
)
    requires
        lt.name@ == rt.name@,
        lt.extend == rt.extend,
        view_opt_string(lt.description) == view_opt_string(rt.description),
        lt.directives@ == rt.directives@,
        directive_list_wf(lt.directives@),
        type_kind_wf(lt.kind),
        type_kind_wf(rt.kind),
        (lt.kind matches TypeKind::Object(lo) && rt.kind matches TypeKind::Object(ro)
            && lo.implements@ == ro.implements@ && 0 <= p <= lo.fields@.len() && ro.fields@
            == lo.fields@.insert(p, f)) || (lt.kind matches TypeKind::Interface(lif)
            && rt.kind matches TypeKind::Interface(rif) && lif.implements@ == rif.implements@ && 0
            <= p <= lif.fields@.len() && rif.fields@ == lif.fields@.insert(p, f)),
    ensures
        type_definition_reports(lt, rt) == seq![
            added_entry(fields_loc(lt, rt), f.spec_name(), ChangeType::NonBreaking),
        ],
        type_definition_reports(rt, lt) == seq![
            removed_entry(fields_loc(lt, rt), f.spec_name()),
        ],
{
    let loc = type_definition_loc(lt, rt);
    match (lt.kind, rt.kind) {
        (TypeKind::Object(lo), TypeKind::Object(ro)) => {
            assert(loc == Seq::empty().push(
                segment_view(DiffLocationSegmentType::ObjectDefinition, Some(rt.name@)),
            ));
            assert(type_definition_loc(rt, lt) == loc);
            lemma_name_list_identity(
                loc,
                DiffLocationSegmentType::Implements,
                ChangeType::NonBreaking,
                lo.implements@,
            );
            lemma_field_addition_reports(loc, true, lo.fields@, p, f);
            assert(object_type_reports(loc, lo, ro) =~= seq![
                added_entry(fields_loc(lt, rt), f.spec_name(), ChangeType::NonBreaking),
            ]);
            assert(object_type_reports(loc, ro, lo) =~= seq![
                removed_entry(fields_loc(lt, rt), f.spec_name()),
            ]);
        }
        (TypeKind::Interface(lif), TypeKind::Interface(rif)) => {
            assert(loc == Seq::empty().push(
                segment_view(DiffLocationSegmentType::InterfaceDefinition, Some(rt.name@)),
            ));
            assert(type_definition_loc(rt, lt) == loc);
            lemma_name_list_identity(
                loc,
                DiffLocationSegmentType::Implements,
                ChangeType::NonBreaking,
                lif.implements@,
            );
            lemma_field_addition_reports(loc, false, lif.fields@, p, f);
            assert(interface_type_reports(loc, lif, rif) =~= seq![
                added_entry(fields_loc(lt, rt), f.spec_name(), ChangeType::NonBreaking),
            ]);
            assert(interface_type_reports(loc, rif, lif) =~= seq![
                removed_entry(fields_loc(lt, rt), f.spec_name()),
            ]);
        }
        _ => {
            assert(false);
        }
    }
    assert(type_kind_reports(lt, rt) == seq![
        added_entry(fields_loc(lt, rt), f.spec_name(), ChangeType::NonBreaking),
    ]);
    assert(type_kind_reports(rt, lt) == seq![
        removed_entry(fields_loc(lt, rt), f.spec_name()),
    ]);
    lemma_optional_string_identity(
        loc.push(segment_view(DiffLocationSegmentType::Description, None)),
        ChangeType::NonBreaking,
        ChangeType::NonBreaking,
        ChangeType::NonBreaking,
        false,
        view_opt_string(lt.description),
    );
    lemma_directive_list_identity(loc, lt.directives@);
    assert(type_definition_reports(lt, rt) =~= seq![
        added_entry(fields_loc(lt, rt), f.spec_name(), ChangeType::NonBreaking),
    ]);
    lemma_optional_string_identity(
        loc.push(segment_view(DiffLocationSegmentType::Description, None)),
        ChangeType::NonBreaking,
        ChangeType::NonBreaking,
        ChangeType::NonBreaking,
        false,
        view_opt_string(rt.description),
    );
    assert(type_definition_reports(rt, lt) =~= seq![
        removed_entry(fields_loc(lt, rt), f.spec_name()),
    ]);
}

/// Two valid documents that differ only by one field of one object or
/// interface type — inserted at any position — diff to exactly one
/// non-breaking addition report; swapping left and right yields exactly one
/// removal report at the same location, classified breaking.
pub proof fn lemma_diff_one_added_field(
    left: ServiceDocument,
    right: ServiceDocument,
    k: int,
    p: int,
    f: FieldDefinition,
)
    requires
        document_wf(left),
        document_wf(right),
        left.directive_definitions@ == right.directive_definitions@,
        left.schema_definitions@ == right.schema_definitions@,
        left.type_definitions@.len() == right.type_definitions@.len(),
        0 <= k < left.type_definitions@.len(),
        forall|j: int|
            0 <= j < left.type_definitions@.len() && j != k ==> (#[trigger] left.type_definitions@[j])
                == right.type_definitions@[j],
        left.type_definitions@[k].name@ == right.type_definitions@[k].name@,
        left.type_definitions@[k].extend == right.type_definitions@[k].extend,
        view_opt_string(left.type_definitions@[k].description) == view_opt_string(
            right.type_definitions@[k].description,
        ),
        left.type_definitions@[k].directives@ == right.type_definitions@[k].directives@,
        (left.type_definitions@[k].kind matches TypeKind::Object(lo)
            && right.type_definitions@[k].kind matches TypeKind::Object(ro) && lo.implements@
            == ro.implements@ && 0 <= p <= lo.fields@.len() && ro.fields@ == lo.fields@.insert(
            p,
            f,
        )) || (left.type_definitions@[k].kind matches TypeKind::Interface(lif)
            && right.type_definitions@[k].kind matches TypeKind::Interface(rif) && lif.implements@
            == rif.implements@ && 0 <= p <= lif.fields@.len() && rif.fields@ == lif.fields@.insert(
            p,
            f,
        )),
    ensures
        schema_diff_reports(left, right) == seq![
            added_entry(
                fields_loc(left.type_definitions@[k], right.type_definitions@[k]),
                f.spec_name(),
                ChangeType::NonBreaking,
            ),
        ],
        schema_diff_reports(right, left) == seq![
            removed_entry(
                fields_loc(left.type_definitions@[k], right.type_definitions@[k]),
                f.spec_name(),
            ),
        ],
{
    let lt = left.type_definitions@[k];
    let rt = right.type_definitions@[k];

    // Everything outside the type definitions compares empty.
    lemma_directive_definition_list_identity(left.directive_definitions@);
    lemma_schema_definition_list_identity(left.schema_definitions@);

    // The one changed pair: only its field lists differ, by the one field.
    assert(directive_list_wf(lt.directives@));
    assert(type_kind_wf(lt.kind));
    assert(type_kind_wf(rt.kind));
    lemma_type_definition_one_field(lt, rt, p, f);
    assert(type_definition_loc(rt, lt) == type_definition_loc(lt, rt));

    // Every other matched pair of type definitions compares empty.
    let compare = type_definition_compare_fn();
    assert forall|j: int|
        0 <= j < left.type_definitions@.len() && j != k implies (#[trigger] compare(
        left.type_definitions@[j],
        right.type_definitions@[j],
    )) == Seq::<ReportEntryView>::empty() by {
        assert(left.type_definitions@[j] == right.type_definitions@[j]);
        lemma_type_definition_identity(left.type_definitions@[j]);
    };
    assert forall|j: int|
        0 <= j < left.type_definitions@.len() implies (#[trigger] left.type_definitions@[j].spec_name())
        == right.type_definitions@[j].spec_name() by {
        if j != k {
            assert(left.type_definitions@[j] == right.type_definitions@[j]);
        }
    };
    lemma_correlate_one_changed(
        left.type_definitions@,
        right.type_definitions@,
        Seq::empty().push(segment_view(DiffLocationSegmentType::TypeDefinition, None)),
        const_classifier(ChangeType::NonBreaking),
        compare,
        k,
    );
    assert(schema_diff_reports(left, right) =~= seq![
        added_entry(fields_loc(lt, rt), f.spec_name(), ChangeType::NonBreaking),
    ]);

    // The reversed diff: same matching, with the pair comparisons swapped.
    assert forall|j: int|
        0 <= j < left.type_definitions@.len() && j != k implies (#[trigger] compare(
        right.type_definitions@[j],
        left.type_definitions@[j],
    )) == Seq::<ReportEntryView>::empty() by {
        assert(left.type_definitions@[j] == right.type_definitions@[j]);
        lemma_type_definition_identity(left.type_definitions@[j]);
    };
    assert forall|j: int|
        0 <= j < right.type_definitions@.len() implies (#[trigger] right.type_definitions@[j].spec_name())
        == left.type_definitions@[j].spec_name() by {
        if j != k {
            assert(left.type_definitions@[j] == right.type_definitions@[j]);
        }
    };
    lemma_correlate_one_changed(
        right.type_definitions@,
        left.type_definitions@,
        Seq::empty().push(segment_view(DiffLocationSegmentType::TypeDefinition, None)),
        const_classifier(ChangeType::NonBreaking),
        compare,
        k,
    );
    assert(schema_diff_reports(right, left) =~= seq![
        removed_entry(fields_loc(lt, rt), f.spec_name()),
    ]);
}

/// Whether two type-definition kinds are the same kind of declaration.
pub open spec fn type_kinds_agree(a: TypeKind, b: TypeKind) -> bool {
    match (a, b) {
        (TypeKind::Scalar, TypeKind::Scalar) => true,
        (TypeKind::Object(x), TypeKind::Object(y)) => true,
        (TypeKind::Interface(x), TypeKind::Interface(y)) => true,
        (TypeKind::Union(x), TypeKind::Union(y)) => true,
        (TypeKind::Enum(x), TypeKind::Enum(y)) => true,
        (TypeKind::InputObject(x), TypeKind::InputObject(y)) => true,
        _ => false,
    }
}

/// The single entry a kind change is reported as.
pub open spec fn type_mismatch_entry(name: Seq<char>) -> ReportEntryView {
    ReportEntryView {
        location: Seq::empty().push(
            segment_view(DiffLocationSegmentType::TypeDefinition, Some(name)),
        ),
        kind: ReportKindView::TypeMismatch { name },
        change_type: ChangeType::Breaking,
    }
}

/// A matched pair of type definitions whose kinds differ — and which agree
/// on everything outside the kind — is reported as a single breaking type
/// mismatch; neither kind's internals are descended into.
pub proof fn lemma_kind_change_reports(l: TypeDefinition, r: TypeDefinition)
    requires
        !type_kinds_agree(l.kind, r.kind),
        l.extend == r.extend,
        view_opt_string(l.description) == view_opt_string(r.description),
        l.directives@ == r.directives@,
        directive_list_wf(l.directives@),
    ensures
        type_definition_reports(l, r) == seq![type_mismatch_entry(r.name@)],
{
    let loc = type_definition_loc(l, r);
    assert(loc == Seq::empty().push(
        segment_view(DiffLocationSegmentType::TypeDefinition, Some(r.name@)),
    ));
    assert(type_kind_reports(l, r) == seq![type_mismatch_entry(r.name@)]);
    lemma_optional_string_identity(
        loc.push(segment_view(DiffLocationSegmentType::Description, None)),
        ChangeType::NonBreaking,
        ChangeType::NonBreaking,
        ChangeType::NonBreaking,
        false,
        view_opt_string(l.description),
    );
    lemma_directive_list_identity(loc, l.directives@);
    assert(type_definition_reports(l, r) =~= seq![type_mismatch_entry(r.name@)]);
}

} // verus!
